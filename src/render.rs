use vstd::prelude::*;

use crate::color::{accent_color_spec, accent_spec, color_spec_of, convert_optional_style, TermColorSpec};
use crate::text::{decimal_of, decimal_string};

verus! {

/// Declares lscolors::LsColors, a parsed color configuration, as an opaque
/// type: it is only handed on to `style_for_path`.
#[verifier::external_type_specification]
#[verifier::external_body]
pub struct ExLsColors(lscolors::LsColors);

/// One line of the listing, as the tree layer computed it.
#[derive(Clone, Debug)]
pub struct FormattedEntry {
    /// Tree-branch text drawn before the name.
    pub prefix: String,
    /// The label shown for the entry.
    pub name: String,
    /// The filesystem path the entry stands for.
    pub path: String,
}

/// A piece of output text and the spec it is written with; `None` writes it
/// plain.
#[derive(Clone, Debug)]
pub struct Segment {
    pub text: String,
    pub spec: Option<TermColorSpec>,
}

impl View for Segment {
    type V = (Seq<char>, Option<TermColorSpec>);

    open spec fn view(&self) -> (Seq<char>, Option<TermColorSpec>) {
        (self.text@, self.spec)
    }
}

pub open spec fn segments_view(v: Seq<Segment>) -> Seq<(Seq<char>, Option<TermColorSpec>)> {
    v.map_values(|s: Segment| s@)
}

/// The spec of index labels: the accent when the listing is colored at all.
pub open spec fn index_spec(colored: bool) -> Option<TermColorSpec> {
    if colored {
        Some(accent_spec())
    } else {
        None
    }
}

/// The output of entry `i`: its prefix, the bracketed index when handles are
/// shown, its name with the entry's own spec, and the line end.
pub open spec fn entry_segments(
    e: FormattedEntry,
    i: nat,
    create_alias: bool,
    colored: bool,
    spec: Option<TermColorSpec>,
) -> Seq<(Seq<char>, Option<TermColorSpec>)> {
    if create_alias {
        seq![
            (e.prefix@, None),
            ("["@, None),
            (decimal_of(i), index_spec(colored)),
            ("] "@, None),
            (e.name@, spec),
            ("\n"@, None),
        ]
    } else {
        seq![(e.prefix@, None), (e.name@, spec), ("\n"@, None)]
    }
}

/// The output of the first `n` entries, in order; `specs[i]` is the spec of
/// the name of entry `i`.
pub open spec fn render_upto(
    es: Seq<FormattedEntry>,
    n: nat,
    create_alias: bool,
    colored: bool,
    specs: Seq<Option<TermColorSpec>>,
) -> Seq<(Seq<char>, Option<TermColorSpec>)>
    decreases n,
{
    if n == 0 {
        Seq::empty()
    } else {
        render_upto(es, (n - 1) as nat, create_alias, colored, specs) + entry_segments(
            es[n - 1],
            (n - 1) as nat,
            create_alias,
            colored,
            specs[n - 1],
        )
    }
}

/// The output of the whole listing.
pub open spec fn render_spec(
    es: Seq<FormattedEntry>,
    create_alias: bool,
    colored: bool,
    specs: Seq<Option<TermColorSpec>>,
) -> Seq<(Seq<char>, Option<TermColorSpec>)> {
    render_upto(es, es.len(), create_alias, colored, specs)
}

/// The text of a sequence of segments, specs left aside.
pub open spec fn text_of(segs: Seq<(Seq<char>, Option<TermColorSpec>)>) -> Seq<char>
    decreases segs.len(),
{
    if segs.len() == 0 {
        Seq::empty()
    } else {
        text_of(segs.drop_last()) + segs.last().0
    }
}

fn plain(s: &str) -> (r: Segment)
    ensures
        r@ == (s@, None::<TermColorSpec>),
{
    Segment { text: String::from_str(s), spec: None }
}

/// Lays out the listing: for each entry in order, its prefix, then `[`, its
/// zero-based index and `] ` when `create_alias` is set, then its name written
/// with `name_specs[i]`, then a line end. Index labels take the accent spec
/// when `colored` is set and are plain otherwise.
pub fn render_segments(
    entries: &Vec<FormattedEntry>,
    create_alias: bool,
    colored: bool,
    name_specs: &Vec<Option<TermColorSpec>>,
) -> (r: Vec<Segment>)
    requires
        name_specs@.len() == entries@.len(),
    ensures
        segments_view(r@) == render_spec(entries@, create_alias, colored, name_specs@),
{
    let mut r: Vec<Segment> = Vec::new();
    let mut i: usize = 0;
    while i < entries.len()
        invariant
            name_specs@.len() == entries@.len(),
            i <= entries@.len(),
            segments_view(r@) == render_upto(entries@, i as nat, create_alias, colored, name_specs@),
        decreases entries@.len() - i,
    {
        let e = &entries[i];
        let ghost before = segments_view(r@);
        r.push(Segment { text: e.prefix.clone(), spec: None });
        if create_alias {
            r.push(plain("["));
            let index_spec = if colored {
                Some(accent_color_spec())
            } else {
                None
            };
            r.push(Segment { text: decimal_string(i), spec: index_spec });
            r.push(plain("] "));
        }
        r.push(Segment { text: e.name.clone(), spec: name_specs[i] });
        r.push(plain("\n"));
        assert(segments_view(r@) =~= before + entry_segments(
            entries@[i as int],
            i as nat,
            create_alias,
            colored,
            name_specs@[i as int],
        ));
        i = i + 1;
    }
    r
}

/// Concatenates the text of the segments, specs left aside: the listing as it
/// reads with color off.
pub fn plain_text(segments: &Vec<Segment>) -> (r: String)
    ensures
        r@ == text_of(segments_view(segments@)),
{
    let mut r = String::new();
    let mut i: usize = 0;
    while i < segments.len()
        invariant
            i <= segments@.len(),
            r@ == text_of(segments_view(segments@.subrange(0, i as int))),
        decreases segments@.len() - i,
    {
        r.append(segments[i].text.as_str());
        proof {
            let pre = segments@.subrange(0, i as int + 1);
            assert(segments_view(pre).drop_last() =~= segments_view(segments@.subrange(0, i as int)));
        }
        i = i + 1;
    }
    assert(segments@.subrange(0, segments@.len() as int) =~= segments@);
    r
}

/// Relies on lscolors::LsColors::style_for_path: the style that the color
/// configuration gives the path. Which one it is depends on the file's
/// metadata on disk, so nothing is promised of it.
#[verifier::external_body]
fn style_for_path<'a>(colors: &'a lscolors::LsColors, path: &str) -> (r: Option<&'a lscolors::Style>) {
    colors.style_for_path(path)
}

/// The spec the name of the entry at `path` is written with: none without a
/// color configuration, or where the configuration has no style for the path;
/// else the conversion of that style.
pub fn name_spec(colors: Option<&lscolors::LsColors>, path: &str) -> (r: Option<TermColorSpec>)
    ensures
        colors is None ==> r is None,
        r is Some ==> exists|s: lscolors::Style| r == Some(color_spec_of(s)),
{
    match colors {
        Some(c) => convert_optional_style(style_for_path(c, path)),
        None => None,
    }
}

/// Lays out the listing with the specs that `colors` gives each path: the
/// layout of `render_segments`, colored exactly when a configuration is given.
pub fn print_plan(
    entries: &Vec<FormattedEntry>,
    create_alias: bool,
    colors: Option<&lscolors::LsColors>,
) -> (r: Vec<Segment>)
    ensures
        exists|specs: Seq<Option<TermColorSpec>>|
            {
                &&& specs.len() == entries@.len()
                &&& colors is None ==> forall|k: int| 0 <= k < specs.len() ==> #[trigger] specs[k] is None
                &&& segments_view(r@) == #[trigger] render_spec(entries@, create_alias, colors is Some, specs)
            },
{
    let mut specs: Vec<Option<TermColorSpec>> = Vec::new();
    let mut i: usize = 0;
    while i < entries.len()
        invariant
            i <= entries@.len(),
            specs@.len() == i,
            colors is None ==> forall|k: int| 0 <= k < specs@.len() ==> #[trigger] specs@[k] is None,
        decreases entries@.len() - i,
    {
        specs.push(name_spec(colors, entries[i].path.as_str()));
        i = i + 1;
    }
    let r = render_segments(entries, create_alias, colors.is_some(), &specs);
    assert(segments_view(r@) == render_spec(entries@, create_alias, colors is Some, specs@));
    r
}

/// With handles shown, the output of `n` entries is `n` blocks of six
/// segments, block `i` being entry `i`'s: prefix, `[`, `i` in decimal, `] `,
/// name, line end.
pub proof fn lemma_indexed_layout_upto(
    es: Seq<FormattedEntry>,
    n: nat,
    colored: bool,
    specs: Seq<Option<TermColorSpec>>,
)
    requires
        n <= es.len(),
    ensures
        render_upto(es, n, true, colored, specs).len() == 6 * n,
        forall|i: int|
            0 <= i < n ==> render_upto(es, n, true, colored, specs).subrange(6 * i, 6 * i + 6)
                == entry_segments(#[trigger] es[i], i as nat, true, colored, specs[i]),
    decreases n,
{
    if n > 0 {
        let m = (n - 1) as nat;
        lemma_indexed_layout_upto(es, m, colored, specs);
        let a = render_upto(es, m, true, colored, specs);
        let b = entry_segments(es[m as int], m, true, colored, specs[m as int]);
        let full = render_upto(es, n, true, colored, specs);
        assert(full == a + b);
        assert forall|i: int| 0 <= i < n implies full.subrange(6 * i, 6 * i + 6) == entry_segments(
            #[trigger] es[i],
            i as nat,
            true,
            colored,
            specs[i],
        ) by {
            if i < m {
                assert(full.subrange(6 * i, 6 * i + 6) =~= a.subrange(6 * i, 6 * i + 6));
            } else {
                assert(full.subrange(6 * i, 6 * i + 6) =~= b);
            }
        }
    }
}

/// With handles shown, a listing of `N` entries is `N` lines in input order:
/// line `i` is entry `i`'s prefix, then `[i] `, then its name, then the line
/// end.
pub proof fn lemma_indexed_layout(
    es: Seq<FormattedEntry>,
    colored: bool,
    specs: Seq<Option<TermColorSpec>>,
)
    ensures
        render_spec(es, true, colored, specs).len() == 6 * es.len(),
        forall|i: int|
            0 <= i < es.len() ==> {
                let block = #[trigger] render_spec(es, true, colored, specs).subrange(6 * i, 6 * i + 6);
                &&& block[0] == (es[i].prefix@, None::<TermColorSpec>)
                &&& block[1] == ("["@, None::<TermColorSpec>)
                &&& block[2] == (decimal_of(i as nat), index_spec(colored))
                &&& block[3] == ("] "@, None::<TermColorSpec>)
                &&& block[4] == (es[i].name@, specs[i])
                &&& block[5] == ("\n"@, None::<TermColorSpec>)
            },
{
    lemma_indexed_layout_upto(es, es.len(), colored, specs);
    assert forall|i: int| 0 <= i < es.len() implies {
        let block = #[trigger] render_spec(es, true, colored, specs).subrange(6 * i, 6 * i + 6);
        &&& block[0] == (es[i].prefix@, None::<TermColorSpec>)
        &&& block[1] == ("["@, None::<TermColorSpec>)
        &&& block[2] == (decimal_of(i as nat), index_spec(colored))
        &&& block[3] == ("] "@, None::<TermColorSpec>)
        &&& block[4] == (es[i].name@, specs[i])
        &&& block[5] == ("\n"@, None::<TermColorSpec>)
    } by {
        assert(render_spec(es, true, colored, specs).subrange(6 * i, 6 * i + 6) == entry_segments(
            es[i],
            i as nat,
            true,
            colored,
            specs[i],
        ));
    }
}

} // verus!
