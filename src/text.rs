use vstd::prelude::*;

verus! {

/// The decimal digit character of `d`, for `d < 10`.
pub open spec fn digit_char(d: nat) -> char {
    if d == 0 {
        '0'
    } else if d == 1 {
        '1'
    } else if d == 2 {
        '2'
    } else if d == 3 {
        '3'
    } else if d == 4 {
        '4'
    } else if d == 5 {
        '5'
    } else if d == 6 {
        '6'
    } else if d == 7 {
        '7'
    } else if d == 8 {
        '8'
    } else {
        '9'
    }
}

/// The decimal notation of `n`, without leading zeros.
pub open spec fn decimal_of(n: nat) -> Seq<char>
    decreases n,
{
    if n < 10 {
        seq![digit_char(n)]
    } else {
        decimal_of(n / 10) + seq![digit_char(n % 10)]
    }
}

/// `s` with each single quote written as a backslash and a quote.
pub open spec fn escape_quotes(s: Seq<char>) -> Seq<char>
    decreases s.len(),
{
    if s.len() == 0 {
        Seq::empty()
    } else if s.last() == '\'' {
        escape_quotes(s.drop_last()) + seq!['\\', '\'']
    } else {
        escape_quotes(s.drop_last()) + seq![s.last()]
    }
}

/// What a shell reads back from text escaped by `escape_quotes`: each
/// backslash-quote pair stands for one quote.
pub open spec fn unescape_quotes(s: Seq<char>) -> Seq<char>
    decreases s.len(),
{
    if s.len() == 0 {
        Seq::empty()
    } else if s.len() >= 2 && s.last() == '\'' && s[s.len() - 2] == '\\' {
        unescape_quotes(s.subrange(0, s.len() - 2)) + seq!['\'']
    } else {
        unescape_quotes(s.drop_last()) + seq![s.last()]
    }
}

fn digit_str(d: usize) -> (r: &'static str)
    requires
        d < 10,
    ensures
        r@ == seq![digit_char(d as nat)],
{
    proof {
        reveal_strlit("0");
        reveal_strlit("1");
        reveal_strlit("2");
        reveal_strlit("3");
        reveal_strlit("4");
        reveal_strlit("5");
        reveal_strlit("6");
        reveal_strlit("7");
        reveal_strlit("8");
        reveal_strlit("9");
    }
    if d == 0 {
        "0"
    } else if d == 1 {
        "1"
    } else if d == 2 {
        "2"
    } else if d == 3 {
        "3"
    } else if d == 4 {
        "4"
    } else if d == 5 {
        "5"
    } else if d == 6 {
        "6"
    } else if d == 7 {
        "7"
    } else if d == 8 {
        "8"
    } else {
        "9"
    }
}

/// Writes `n` in decimal.
pub fn decimal_string(n: usize) -> (r: String)
    ensures
        r@ == decimal_of(n as nat),
    decreases n,
{
    if n < 10 {
        let mut s = String::new();
        s.append(digit_str(n));
        s
    } else {
        let mut s = decimal_string(n / 10);
        s.append(digit_str(n % 10));
        s
    }
}

/// Escapes each single quote of `s` with a backslash, so that the text can
/// stand inside a single-quoted shell word.
pub fn escape_single_quotes(s: &str) -> (r: String)
    ensures
        r@ == escape_quotes(s@),
{
    let n = s.unicode_len();
    let mut r = String::new();
    let mut i: usize = 0;
    while i < n
        invariant
            n == s@.len(),
            i <= n,
            r@ == escape_quotes(s@.subrange(0, i as int)),
        decreases n - i,
    {
        let c = s.get_char(i);
        let piece = if c == '\'' {
            proof {
                reveal_strlit("\\'");
            }
            "\\'"
        } else {
            s.substring_char(i, i + 1)
        };
        r.append(piece);
        proof {
            let pre = s@.subrange(0, i as int + 1);
            assert(pre.drop_last() =~= s@.subrange(0, i as int));
            assert(pre.last() == c);
            if c != '\'' {
                assert(piece@ =~= seq![c]);
            }
        }
        i = i + 1;
    }
    assert(s@.subrange(0, n as int) =~= s@);
    r
}

/// Every quote in escaped text directly follows a backslash.
pub proof fn lemma_escaped_quotes_follow_backslash(s: Seq<char>)
    ensures
        forall|k: int|
            0 <= k < escape_quotes(s).len() && #[trigger] escape_quotes(s)[k] == '\'' ==> k > 0
                && escape_quotes(s)[k - 1] == '\\',
    decreases s.len(),
{
    if s.len() > 0 {
        lemma_escaped_quotes_follow_backslash(s.drop_last());
        let e = escape_quotes(s.drop_last());
        assert forall|k: int|
            0 <= k < escape_quotes(s).len() && #[trigger] escape_quotes(s)[k] == '\'' implies k > 0
                && escape_quotes(s)[k - 1] == '\\' by {
            if k < e.len() {
                assert(escape_quotes(s)[k] == e[k]);
                assert(escape_quotes(s)[k - 1] == e[k - 1]);
            }
        }
    }
}

/// Unescaping escaped text gives back the text that was escaped.
pub proof fn lemma_escape_round_trip(s: Seq<char>)
    ensures
        unescape_quotes(escape_quotes(s)) == s,
    decreases s.len(),
{
    if s.len() > 0 {
        lemma_escape_round_trip(s.drop_last());
        let e = escape_quotes(s.drop_last());
        let full = escape_quotes(s);
        if s.last() == '\'' {
            assert(full.subrange(0, full.len() - 2) =~= e);
        } else {
            assert(full.drop_last() =~= e);
        }
        assert(s.drop_last() + seq![s.last()] =~= s);
    }
}

} // verus!
