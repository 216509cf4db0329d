use vstd::prelude::*;

use crate::render::FormattedEntry;
use crate::text::{decimal_of, decimal_string, escape_quotes, escape_single_quotes};

verus! {

/// The host family whose shells the alias scripts are written for.
#[derive(Clone, Copy, Debug, PartialEq, Eq, Structural)]
pub enum Platform {
    /// One POSIX shell alias file.
    Posix,
    /// A PowerShell module and a CMD batch file.
    Windows,
}

/// What the environment gives the emitter, resolved once: the user's name
/// and the temporary directory of the Windows target.
#[derive(Clone, Debug)]
pub struct AliasConfig {
    pub user: String,
    pub temp_dir: String,
}

/// One script to write: the directory, the file name, and its lines in order,
/// each without its line end.
#[derive(Clone, Debug)]
pub struct AliasFile {
    pub dir: String,
    pub file_name: String,
    pub lines: Vec<String>,
}

pub open spec fn lines_view(v: Seq<String>) -> Seq<Seq<char>> {
    v.map_values(|s: String| s@)
}

/// `alias e<i>="eval '<editor> \"<path>\"'"`, quotes in the path escaped.
pub open spec fn posix_line(i: nat, editor: Seq<char>, path: Seq<char>) -> Seq<char> {
    "alias e"@ + decimal_of(i) + "=\"eval '"@ + editor + " \\\""@ + escape_quotes(path) + "\\\"'\""@
}

/// `Function e<i> { Start-Process "<path>"}` with no editor, else
/// `Function e<i> { <editor> $args "<path>"}`.
pub open spec fn powershell_line(i: nat, editor: Seq<char>, path: Seq<char>) -> Seq<char> {
    if editor.len() == 0 {
        "Function e"@ + decimal_of(i) + " { Start-Process \""@ + path + "\"}"@
    } else {
        "Function e"@ + decimal_of(i) + " { "@ + editor + " $args \""@ + path + "\"}"@
    }
}

/// `doskey /exename=cmd.exe e<i>=<editor> <path>`, `START` standing for an
/// empty editor.
pub open spec fn cmd_line(i: nat, editor: Seq<char>, path: Seq<char>) -> Seq<char> {
    "doskey /exename=cmd.exe e"@ + decimal_of(i) + "="@ + (if editor.len() == 0 {
        "START"@
    } else {
        editor
    }) + " "@ + path
}

/// The last line of the PowerShell module, which makes its functions visible.
pub open spec fn powershell_trailer() -> Seq<char> {
    "Export-ModuleMember -Function *"@
}

pub open spec fn posix_script(editor: Seq<char>, es: Seq<FormattedEntry>) -> Seq<Seq<char>> {
    Seq::new(es.len(), |i: int| posix_line(i as nat, editor, es[i].path@))
}

pub open spec fn powershell_script(editor: Seq<char>, es: Seq<FormattedEntry>) -> Seq<Seq<char>> {
    Seq::new(es.len(), |i: int| powershell_line(i as nat, editor, es[i].path@)).push(
        powershell_trailer(),
    )
}

pub open spec fn cmd_script(editor: Seq<char>, es: Seq<FormattedEntry>) -> Seq<Seq<char>> {
    Seq::new(es.len(), |i: int| cmd_line(i as nat, editor, es[i].path@))
}

/// The name shared by the alias files of `user`, before any extension.
pub open spec fn alias_stem(user: Seq<char>) -> Seq<char> {
    "tre_aliases_"@ + user
}

/// The alias line of the POSIX dialect for entry `index`.
pub fn posix_alias_line(index: usize, editor: &str, path: &str) -> (r: String)
    ensures
        r@ == posix_line(index as nat, editor@, path@),
{
    let mut r = String::from_str("alias e");
    r.append(decimal_string(index).as_str());
    r.append("=\"eval '");
    r.append(editor);
    r.append(" \\\"");
    r.append(escape_single_quotes(path).as_str());
    r.append("\\\"'\"");
    r
}

/// The PowerShell function of entry `index`.
pub fn powershell_alias_line(index: usize, editor: &str, path: &str) -> (r: String)
    ensures
        r@ == powershell_line(index as nat, editor@, path@),
{
    let mut r = String::from_str("Function e");
    r.append(decimal_string(index).as_str());
    if editor.unicode_len() == 0 {
        r.append(" { Start-Process \"");
    } else {
        r.append(" { ");
        r.append(editor);
        r.append(" $args \"");
    }
    r.append(path);
    r.append("\"}");
    r
}

/// The CMD macro definition of entry `index`.
pub fn cmd_alias_line(index: usize, editor: &str, path: &str) -> (r: String)
    ensures
        r@ == cmd_line(index as nat, editor@, path@),
{
    let mut r = String::from_str("doskey /exename=cmd.exe e");
    r.append(decimal_string(index).as_str());
    r.append("=");
    if editor.unicode_len() == 0 {
        r.append("START");
    } else {
        r.append(editor);
    }
    r.append(" ");
    r.append(path);
    r
}

/// The POSIX alias file: line `i` defines `e<i>` for entry `i`, one line per
/// entry, in input order.
pub fn posix_alias_lines(editor: &str, entries: &Vec<FormattedEntry>) -> (r: Vec<String>)
    ensures
        lines_view(r@) == posix_script(editor@, entries@),
{
    let mut r: Vec<String> = Vec::new();
    let mut i: usize = 0;
    while i < entries.len()
        invariant
            i <= entries@.len(),
            r@.len() == i,
            forall|k: int| 0 <= k < i ==> #[trigger] r@[k]@ == posix_line(k as nat, editor@, entries@[k].path@),
        decreases entries@.len() - i,
    {
        r.push(posix_alias_line(i, editor, entries[i].path.as_str()));
        i = i + 1;
    }
    assert(lines_view(r@) =~= posix_script(editor@, entries@));
    r
}

/// The PowerShell module: one function per entry in input order, then the
/// export line.
pub fn powershell_alias_lines(editor: &str, entries: &Vec<FormattedEntry>) -> (r: Vec<String>)
    ensures
        lines_view(r@) == powershell_script(editor@, entries@),
{
    let mut r: Vec<String> = Vec::new();
    let mut i: usize = 0;
    while i < entries.len()
        invariant
            i <= entries@.len(),
            r@.len() == i,
            forall|k: int|
                0 <= k < i ==> #[trigger] r@[k]@ == powershell_line(k as nat, editor@, entries@[k].path@),
        decreases entries@.len() - i,
    {
        r.push(powershell_alias_line(i, editor, entries[i].path.as_str()));
        i = i + 1;
    }
    r.push(String::from_str("Export-ModuleMember -Function *"));
    assert(lines_view(r@) =~= powershell_script(editor@, entries@));
    r
}

/// The CMD batch file: one macro per entry, in input order.
pub fn cmd_alias_lines(editor: &str, entries: &Vec<FormattedEntry>) -> (r: Vec<String>)
    ensures
        lines_view(r@) == cmd_script(editor@, entries@),
{
    let mut r: Vec<String> = Vec::new();
    let mut i: usize = 0;
    while i < entries.len()
        invariant
            i <= entries@.len(),
            r@.len() == i,
            forall|k: int| 0 <= k < i ==> #[trigger] r@[k]@ == cmd_line(k as nat, editor@, entries@[k].path@),
        decreases entries@.len() - i,
    {
        r.push(cmd_alias_line(i, editor, entries[i].path.as_str()));
        i = i + 1;
    }
    assert(lines_view(r@) =~= cmd_script(editor@, entries@));
    r
}

fn join(a: &str, b: &str) -> (r: String)
    ensures
        r@ == a@ + b@,
{
    let mut r = String::from_str(a);
    r.append(b);
    r
}

impl AliasConfig {
    /// Resolves the configuration from what the environment holds: an absent
    /// user name becomes empty, the temporary directory is the first of
    /// `temp` and `home` that is present, else empty.
    pub fn resolve(user: Option<String>, temp: Option<String>, home: Option<String>) -> (r: AliasConfig)
        ensures
            r.user@ == match user {
                Some(u) => u@,
                None => Seq::<char>::empty(),
            },
            r.temp_dir@ == match (temp, home) {
                (Some(t), _) => t@,
                (None, Some(h)) => h@,
                (None, None) => Seq::<char>::empty(),
            },
    {
        let user = match user {
            Some(u) => u,
            None => String::new(),
        };
        let temp_dir = match temp {
            Some(t) => t,
            None => match home {
                Some(h) => h,
                None => String::new(),
            },
        };
        AliasConfig { user, temp_dir }
    }
}

/// The alias files of one run. On `Posix`, one file `tre_aliases_<user>` in
/// `/tmp`. On `Windows`, `tre_aliases_<user>.psm1` then
/// `tre_aliases_<user>.bat`, both in the configured temporary directory.
pub fn alias_files(
    platform: Platform,
    config: &AliasConfig,
    editor: &str,
    entries: &Vec<FormattedEntry>,
) -> (r: Vec<AliasFile>)
    ensures
        platform == Platform::Posix ==> {
            &&& r@.len() == 1
            &&& r@[0].dir@ == "/tmp"@
            &&& r@[0].file_name@ == alias_stem(config.user@)
            &&& lines_view(r@[0].lines@) == posix_script(editor@, entries@)
        },
        platform == Platform::Windows ==> {
            &&& r@.len() == 2
            &&& r@[0].dir@ == config.temp_dir@
            &&& r@[0].file_name@ == alias_stem(config.user@) + ".psm1"@
            &&& lines_view(r@[0].lines@) == powershell_script(editor@, entries@)
            &&& r@[1].dir@ == config.temp_dir@
            &&& r@[1].file_name@ == alias_stem(config.user@) + ".bat"@
            &&& lines_view(r@[1].lines@) == cmd_script(editor@, entries@)
        },
{
    let stem = join("tre_aliases_", config.user.as_str());
    match platform {
        Platform::Posix => {
            let file = AliasFile {
                dir: String::from_str("/tmp"),
                file_name: stem,
                lines: posix_alias_lines(editor, entries),
            };
            vec![file]
        },
        Platform::Windows => {
            let module = AliasFile {
                dir: config.temp_dir.clone(),
                file_name: join(stem.as_str(), ".psm1"),
                lines: powershell_alias_lines(editor, entries),
            };
            let batch = AliasFile {
                dir: config.temp_dir.clone(),
                file_name: join(stem.as_str(), ".bat"),
                lines: cmd_alias_lines(editor, entries),
            };
            vec![module, batch]
        },
    }
}

} // verus!
