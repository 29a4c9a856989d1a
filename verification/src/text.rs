//! Normalisation of the two lines the user types: whitespace trimming for
//! the note, and trimming plus single-quote stripping for the media path
//! (so that a path pasted with shell quoting is tolerated).

use vstd::prelude::*;
use vstd::string::*;

verus! {

/// True when `s` ends with `suffix`.
pub open spec fn ends_with(s: Seq<char>, suffix: Seq<char>) -> bool {
    s.len() >= suffix.len() && s.subrange(s.len() - suffix.len(), s.len() as int) == suffix
}

/// A character counts as whitespace exactly where `str::trim` says it does:
/// the Unicode `White_Space` set.
pub open spec fn is_ws(c: char) -> bool {
    ||| c == ' '
    ||| c == '\t'
    ||| c == '\n'
    ||| c == '\r'
    ||| c == '\u{000B}'
    ||| c == '\u{000C}'
    ||| c == '\u{0085}'
    ||| c == '\u{00A0}'
    ||| c == '\u{1680}'
    ||| c == '\u{2000}'
    ||| c == '\u{2001}'
    ||| c == '\u{2002}'
    ||| c == '\u{2003}'
    ||| c == '\u{2004}'
    ||| c == '\u{2005}'
    ||| c == '\u{2006}'
    ||| c == '\u{2007}'
    ||| c == '\u{2008}'
    ||| c == '\u{2009}'
    ||| c == '\u{200A}'
    ||| c == '\u{2028}'
    ||| c == '\u{2029}'
    ||| c == '\u{202F}'
    ||| c == '\u{205F}'
    ||| c == '\u{3000}'
}

/// Runtime test for [`is_ws`].
pub fn is_ws_char(c: char) -> (b: bool)
    ensures
        b == is_ws(c),
{
    c == ' ' || c == '\t' || c == '\n' || c == '\r' || c == '\u{000B}' || c == '\u{000C}' || c
        == '\u{0085}' || c == '\u{00A0}' || c == '\u{1680}' || c == '\u{2000}' || c == '\u{2001}'
        || c == '\u{2002}' || c == '\u{2003}' || c == '\u{2004}' || c == '\u{2005}' || c
        == '\u{2006}' || c == '\u{2007}' || c == '\u{2008}' || c == '\u{2009}' || c == '\u{200A}'
        || c == '\u{2028}' || c == '\u{2029}' || c == '\u{202F}' || c == '\u{205F}' || c
        == '\u{3000}'
}

/// The sequence with its leading whitespace removed.
pub open spec fn trim_front_spec(s: Seq<char>) -> Seq<char>
    decreases s.len(),
{
    if s.len() > 0 && is_ws(s[0]) {
        trim_front_spec(s.drop_first())
    } else {
        s
    }
}

/// The sequence with its trailing whitespace removed.
pub open spec fn trim_back_spec(s: Seq<char>) -> Seq<char>
    decreases s.len(),
{
    if s.len() > 0 && is_ws(s.last()) {
        trim_back_spec(s.drop_last())
    } else {
        s
    }
}

/// The sequence with both leading and trailing whitespace removed.
pub open spec fn trim_spec(s: Seq<char>) -> Seq<char> {
    trim_back_spec(trim_front_spec(s))
}

proof fn lemma_trim_front_is_suffix(s: Seq<char>, i: int)
    requires
        0 <= i <= s.len(),
        forall|k: int| 0 <= k < i ==> is_ws(s[k]),
        i == s.len() || !is_ws(s[i]),
    ensures
        trim_front_spec(s) == s.subrange(i, s.len() as int),
    decreases i,
{
    if i == 0 {
        assert(s.subrange(0, s.len() as int) =~= s);
    } else {
        let d = s.drop_first();
        lemma_trim_front_is_suffix(d, i - 1);
        assert(d.subrange(i - 1, d.len() as int) =~= s.subrange(i, s.len() as int));
    }
}

proof fn lemma_trim_back_is_prefix_to(s: Seq<char>, j: int)
    requires
        0 <= j <= s.len(),
        forall|k: int| j <= k < s.len() ==> is_ws(s[k]),
        j == 0 || !is_ws(s[j - 1]),
    ensures
        trim_back_spec(s) == s.subrange(0, j),
    decreases s.len() - j,
{
    if j == s.len() {
        assert(s.subrange(0, s.len() as int) =~= s);
    } else {
        let d = s.drop_last();
        lemma_trim_back_is_prefix_to(d, j);
        assert(d.subrange(0, j) =~= s.subrange(0, j));
    }
}

proof fn lemma_trim_front_no_leading_ws(s: Seq<char>)
    ensures
        trim_front_spec(s).len() == 0 || !is_ws(trim_front_spec(s)[0]),
    decreases s.len(),
{
    if s.len() > 0 && is_ws(s[0]) {
        lemma_trim_front_no_leading_ws(s.drop_first());
    }
}

proof fn lemma_trim_back_no_trailing_ws(s: Seq<char>)
    ensures
        trim_back_spec(s).len() == 0 || !is_ws(trim_back_spec(s).last()),
    decreases s.len(),
{
    if s.len() > 0 && is_ws(s.last()) {
        lemma_trim_back_no_trailing_ws(s.drop_last());
    }
}

proof fn lemma_trim_back_is_prefix(s: Seq<char>)
    ensures
        trim_back_spec(s).len() <= s.len(),
        forall|k: int|
            0 <= k < trim_back_spec(s).len() ==> #[trigger] trim_back_spec(s)[k] == s[k],
    decreases s.len(),
{
    if s.len() > 0 && is_ws(s.last()) {
        lemma_trim_back_is_prefix(s.drop_last());
    }
}

/// Trimming is idempotent: a string already trimmed of surrounding
/// whitespace is left unchanged by a second trim.
pub proof fn lemma_trim_idempotent(s: Seq<char>)
    ensures
        trim_spec(trim_spec(s)) == trim_spec(s),
{
    let u = trim_front_spec(s);
    let t = trim_back_spec(u);
    lemma_trim_front_no_leading_ws(s);
    lemma_trim_back_is_prefix(u);
    lemma_trim_back_no_trailing_ws(u);
    assert(trim_front_spec(t) == t);
    assert(trim_back_spec(t) == t);
}

/// Remove leading and trailing whitespace, as `str::trim` does.
pub fn trim(s: &str) -> (r: String)
    ensures
        r@ == trim_spec(s@),
{
    let n = s.unicode_len();
    let mut i: usize = 0;
    while i < n && is_ws_char(s.get_char(i))
        invariant
            0 <= i <= n,
            n == s@.len(),
            forall|k: int| 0 <= k < i ==> is_ws(s@[k]),
        decreases n - i,
    {
        i = i + 1;
    }
    let mut j: usize = n;
    while j > i && is_ws_char(s.get_char(j - 1))
        invariant
            i <= j <= n,
            n == s@.len(),
            forall|k: int| j <= k < n ==> is_ws(s@[k]),
        decreases j,
    {
        j = j - 1;
    }
    let sub = s.substring_char(i, j);
    proof {
        lemma_trim_front_is_suffix(s@, i as int);
        let t = s@.subrange(i as int, n as int);
        lemma_trim_back_is_prefix_to(t, j - i);
        assert(t.subrange(0, j - i) =~= s@.subrange(i as int, j as int));
    }
    sub.to_owned()
}

/// Whether a character survives quote stripping.
pub open spec fn not_quote(c: char) -> bool {
    c != '\''
}

/// The sequence with every single-quote character removed; all other
/// characters are kept, in order. Stripping is global, not limited to the
/// ends of the string, matching a global replace of `'` by nothing.
pub open spec fn strip_quotes_spec(s: Seq<char>) -> Seq<char> {
    s.filter(|c: char| not_quote(c))
}

/// Quote stripping removes only quote characters: nothing it returns is a
/// quote, every non-quote character of the input is kept, and a string
/// without quotes passes through unchanged.
pub proof fn lemma_strip_quotes_exact(s: Seq<char>)
    ensures
        forall|k: int|
            0 <= k < strip_quotes_spec(s).len() ==> not_quote(#[trigger] strip_quotes_spec(s)[k]),
        (forall|k: int| 0 <= k < s.len() ==> not_quote(#[trigger] s[k])) ==> strip_quotes_spec(s)
            == s,
    decreases s.len(),
{
    reveal(Seq::filter);
    if s.len() > 0 {
        lemma_strip_quotes_exact(s.drop_last());
        if forall|k: int| 0 <= k < s.len() ==> not_quote(#[trigger] s[k]) {
            assert(forall|k: int|
                0 <= k < s.drop_last().len() ==> not_quote(#[trigger] s.drop_last()[k]));
            assert(strip_quotes_spec(s) =~= s);
        }
    }
}

/// Remove every single-quote character, as a global replace of `'` by the
/// empty string does.
pub fn strip_quotes(s: &str) -> (r: String)
    ensures
        r@ == strip_quotes_spec(s@),
{
    let n = s.unicode_len();
    let mut out = String::new();
    let mut i: usize = 0;
    while i < n
        invariant
            0 <= i <= n,
            n == s@.len(),
            out@ == s@.subrange(0, i as int).filter(|c: char| not_quote(c)),
        decreases n - i,
    {
        let c = s.get_char(i);
        if c != '\'' {
            let piece = s.substring_char(i, i + 1);
            out.append(piece);
        }
        proof {
            reveal(Seq::filter);
            let pred = |c: char| not_quote(c);
            let pre = s@.subrange(0, i as int);
            let ext = s@.subrange(0, i + 1);
            assert(ext.drop_last() =~= pre);
            assert(ext.last() == s@[i as int]);
            if not_quote(s@[i as int]) {
                assert(pre.push(s@[i as int]) =~= pre + s@.subrange(i as int, i + 1));
                assert(out@ == ext.filter(pred));
            } else {
                assert(out@ == ext.filter(pred));
            }
        }
        i = i + 1;
    }
    proof {
        assert(s@.subrange(0, n as int) =~= s@);
    }
    out
}

} // verus!
