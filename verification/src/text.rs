//! Character-level string operations with their specifications.

use vstd::prelude::*;
use vstd::string::*;

verus! {

/// ASCII lower-casing of one character; every other character is kept.
pub open spec fn ascii_lower_char(c: char) -> char {
    if 'A' <= c && c <= 'Z' {
        ((c as u32) + 32) as char
    } else {
        c
    }
}

/// ASCII lower-casing of a whole string.
pub open spec fn ascii_lower(s: Seq<char>) -> Seq<char> {
    s.map_values(|c: char| ascii_lower_char(c))
}

/// Calls `String::push`, which appends the character; the contract states
/// that and nothing about capacity.
#[verifier::external_body]
fn push_char(s: &mut String, c: char)
    ensures
        final(s)@ == old(s)@.push(c),
{
    s.push(c);
}

/// Returns the string with every ASCII letter in lower case.
pub fn to_ascii_lowercase(s: &str) -> (r: String)
    ensures
        r@ == ascii_lower(s@),
{
    let n = s.unicode_len();
    let mut r = String::new();
    let mut i: usize = 0;
    while i < n
        invariant
            n == s@.len(),
            i <= n,
            r@ == ascii_lower(s@.subrange(0, i as int)),
        decreases n - i,
    {
        let c = s.get_char(i);
        let lc = if 'A' <= c && c <= 'Z' {
            char_from_u32_ascii((c as u32) + 32)
        } else {
            c
        };
        push_char(&mut r, lc);
        assert(s@.subrange(0, i + 1) == s@.subrange(0, i as int).push(c));
        i = i + 1;
    }
    assert(s@.subrange(0, n as int) == s@);
    r
}

fn char_from_u32_ascii(v: u32) -> (c: char)
    requires
        v < 128,
    ensures
        c == v as char,
{
    v as u8 as char
}

/// Whether two strings hold the same characters.
pub fn str_eq(a: &str, b: &str) -> (r: bool)
    ensures
        r == (a@ == b@),
{
    let n = a.unicode_len();
    let m = b.unicode_len();
    if n != m {
        return false;
    }
    let mut i: usize = 0;
    while i < n
        invariant
            n == a@.len(),
            m == b@.len(),
            n == m,
            i <= n,
            forall|j: int| 0 <= j < i ==> a@[j] == b@[j],
        decreases n - i,
    {
        if a.get_char(i) != b.get_char(i) {
            return false;
        }
        i = i + 1;
    }
    assert(a@ =~= b@);
    true
}

/// The characters of a string, one by one.
pub fn to_chars(s: &str) -> (r: Vec<char>)
    ensures
        r@ == s@,
{
    let n = s.unicode_len();
    let mut r: Vec<char> = Vec::new();
    let mut i: usize = 0;
    while i < n
        invariant
            n == s@.len(),
            i <= n,
            r@ == s@.subrange(0, i as int),
        decreases n - i,
    {
        r.push(s.get_char(i));
        assert(r@ =~= s@.subrange(0, i + 1));
        i = i + 1;
    }
    assert(s@.subrange(0, n as int) =~= s@);
    r
}

/// Whether a character is white space in the sense of Unicode's
/// `White_Space` property, as `char::is_whitespace` decides it.
pub open spec fn is_unicode_whitespace(c: char) -> bool {
    ||| c == ' '
    ||| ('\t' <= c && c <= '\r')
    ||| c == '\u{85}'
    ||| c == '\u{a0}'
    ||| c == '\u{1680}'
    ||| ('\u{2000}' <= c && c <= '\u{200a}')
    ||| c == '\u{2028}'
    ||| c == '\u{2029}'
    ||| c == '\u{202f}'
    ||| c == '\u{205f}'
    ||| c == '\u{3000}'
}

/// Decides `is_unicode_whitespace`.
pub fn is_whitespace(c: char) -> (r: bool)
    ensures
        r == is_unicode_whitespace(c),
{
    c == ' ' || ('\t' <= c && c <= '\r') || c == '\u{85}' || c == '\u{a0}' || c == '\u{1680}'
        || ('\u{2000}' <= c && c <= '\u{200a}') || c == '\u{2028}' || c == '\u{2029}'
        || c == '\u{202f}' || c == '\u{205f}' || c == '\u{3000}'
}

/// The string without its leading characters that satisfy `p`.
pub open spec fn skip_while(s: Seq<char>, p: spec_fn(char) -> bool) -> Seq<char>
    decreases s.len(),
{
    if s.len() > 0 && p(s[0]) {
        skip_while(s.drop_first(), p)
    } else {
        s
    }
}

/// The string without its trailing characters that satisfy `p`.
pub open spec fn drop_trailing(s: Seq<char>, p: spec_fn(char) -> bool) -> Seq<char>
    decreases s.len(),
{
    if s.len() > 0 && p(s.last()) {
        drop_trailing(s.drop_last(), p)
    } else {
        s
    }
}

/// The string without leading and trailing white space, as `str::trim` gives it.
pub open spec fn trim(s: Seq<char>) -> Seq<char> {
    drop_trailing(skip_while(s, |c: char| is_unicode_whitespace(c)), |c: char| is_unicode_whitespace(c))
}

/// Skipping the leading run of `p`-characters is skipping its length.
pub proof fn lemma_skip_while(s: Seq<char>, p: spec_fn(char) -> bool, k: int)
    requires
        0 <= k <= s.len(),
        forall|i: int| 0 <= i < k ==> p(#[trigger] s[i]),
        k == s.len() || !p(s[k]),
    ensures
        skip_while(s, p) == s.skip(k),
    decreases k,
{
    if k == 0 {
        assert(s.skip(0) =~= s);
    } else {
        assert(p(s[0]));
        let t = s.drop_first();
        assert forall|i: int| 0 <= i < k - 1 implies p(#[trigger] t[i]) by {
            assert(t[i] == s[i + 1]);
        }
        lemma_skip_while(t, p, k - 1);
        assert(t.skip(k - 1) =~= s.skip(k));
    }
}

/// Dropping the trailing run of `p`-characters keeps the first `j`.
pub proof fn lemma_drop_trailing(s: Seq<char>, p: spec_fn(char) -> bool, j: int)
    requires
        0 <= j <= s.len(),
        forall|i: int| j <= i < s.len() ==> p(#[trigger] s[i]),
        j == 0 || !p(s[j - 1]),
    ensures
        drop_trailing(s, p) == s.take(j),
    decreases s.len() - j,
{
    if j == s.len() {
        assert(s.take(j) =~= s);
    } else {
        assert(p(s.last()));
        let t = s.drop_last();
        assert forall|i: int| j <= i < t.len() implies p(#[trigger] t[i]) by {
            assert(t[i] == s[i]);
        }
        lemma_drop_trailing(t, p, j);
        assert(t.take(j) =~= s.take(j));
    }
}

/// The characters of an optional string.
pub open spec fn opt_view(o: Option<String>) -> Option<Seq<char>> {
    match o {
        Some(s) => Some(s@),
        None => None,
    }
}

/// The decimal digit for a value below ten.
pub open spec fn digit_char(d: nat) -> char {
    ((d + 48) as u32) as char
}

/// The decimal notation of a number, without leading zeros.
pub open spec fn decimal(n: nat) -> Seq<char>
    decreases n,
{
    if n < 10 {
        seq![digit_char(n)]
    } else {
        decimal(n / 10).push(digit_char(n % 10))
    }
}

/// Appends the decimal notation of `n`.
pub fn push_decimal(s: &mut String, n: u64)
    ensures
        final(s)@ == old(s)@ + decimal(n as nat),
    decreases n,
{
    if n >= 10 {
        push_decimal(s, n / 10);
    }
    let d = (n % 10) as u32;
    push_char(s, char_from_u32_ascii(d + 48));
    assert(decimal(n as nat) =~= if n < 10 {
        seq![digit_char(n as nat)]
    } else {
        decimal((n / 10) as nat).push(digit_char((n % 10) as nat))
    });
}

/// `s` with every occurrence of the non-empty `pat` replaced by `rep`,
/// occurrences taken from left to right without overlapping, as
/// `str::replace` does.
pub open spec fn replace_all(s: Seq<char>, pat: Seq<char>, rep: Seq<char>) -> Seq<char>
    decreases s.len(),
{
    if pat.len() == 0 || s.len() < pat.len() {
        s
    } else if s.take(pat.len() as int) == pat {
        rep + replace_all(s.skip(pat.len() as int), pat, rep)
    } else {
        seq![s[0]] + replace_all(s.drop_first(), pat, rep)
    }
}

/// Appends the characters of `t`.
pub fn push_chars(s: &mut String, t: &Vec<char>)
    ensures
        final(s)@ == old(s)@ + t@,
{
    let mut i: usize = 0;
    while i < t.len()
        invariant
            i <= t@.len(),
            s@ == old(s)@ + t@.subrange(0, i as int),
        decreases t.len() - i,
    {
        push_char(s, t[i]);
        assert(t@.subrange(0, i + 1) =~= t@.subrange(0, i as int).push(t@[i as int]));
        i = i + 1;
    }
    assert(t@.subrange(0, t@.len() as int) =~= t@);
}

fn matches_at(c: &Vec<char>, i: usize, p: &Vec<char>) -> (r: bool)
    requires
        i + p@.len() <= c@.len(),
    ensures
        r == (c@.subrange(i as int, i + p@.len()) == p@),
{
    let mut k: usize = 0;
    let cl = c.len();
    while k < p.len()
        invariant
            cl == c@.len(),
            i + p@.len() <= c@.len(),
            k <= p@.len(),
            forall|j: int| 0 <= j < k ==> c@[i + j] == p@[j],
        decreases p.len() - k,
    {
        if c[i + k] != p[k] {
            assert(c@.subrange(i as int, i + p@.len())[k as int] != p@[k as int]);
            return false;
        }
        k = k + 1;
    }
    assert(c@.subrange(i as int, i + p@.len()) =~= p@);
    true
}

/// `s` with every occurrence of the non-empty `pat` replaced by `rep`.
pub fn replace(s: &str, pat: &str, rep: &str) -> (r: String)
    requires
        pat@.len() > 0,
    ensures
        r@ == replace_all(s@, pat@, rep@),
{
    let c = to_chars(s);
    let p = to_chars(pat);
    let rv = to_chars(rep);
    let n = c.len();
    let m = p.len();
    let mut r = String::new();
    let mut i: usize = 0;
    assert(c@.skip(0) =~= c@);
    while i < n
        invariant
            c@ == s@,
            p@ == pat@,
            rv@ == rep@,
            n == c@.len(),
            m == p@.len(),
            m > 0,
            i <= n,
            r@ + replace_all(c@.skip(i as int), p@, rv@) == replace_all(c@, p@, rv@),
        decreases n - i,
    {
        let ghost rest = c@.skip(i as int);
        let ghost r0 = r@;
        if m <= n - i && matches_at(&c, i, &p) {
            assert(rest.take(m as int) =~= c@.subrange(i as int, i + m));
            assert(rest.skip(m as int) =~= c@.skip(i + m));
            push_chars(&mut r, &rv);
            let ghost tail = replace_all(c@.skip(i + m), p@, rv@);
            assert((r0 + rv@) + tail =~= r0 + (rv@ + tail));
            i = i + m;
        } else {
            if m <= n - i {
                assert(rest.take(m as int) =~= c@.subrange(i as int, i + m));
            }
            assert(rest.drop_first() =~= c@.skip(i + 1));
            assert(rest =~= seq![c@[i as int]] + rest.drop_first());
            push_char(&mut r, c[i]);
            let ghost tail = replace_all(c@.skip(i + 1), p@, rv@);
            assert(r0.push(c@[i as int]) + tail =~= r0 + (seq![c@[i as int]] + tail));
            i = i + 1;
        }
    }
    assert(c@.skip(n as int) =~= Seq::<char>::empty());
    r
}

} // verus!
