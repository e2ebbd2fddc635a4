//! The overlay's palette as ARGB words, and the parsing of user-given colours.

use vstd::prelude::*;
use crate::text::{
    is_unicode_whitespace, is_whitespace, lemma_drop_trailing, lemma_skip_while, skip_while,
    to_chars, trim,
};

verus! {

pub const RED_GRAY: u32 = 0xFF3F2226;
pub const DARKISH_GRAY: u32 = 0xFF242428;
pub const DARKISH_BLUE: u32 = 0xFF252B32;
pub const GRAY: u32 = 0xFF1E1F23;
pub const LIGHT_GRAY: u32 = 0xFF37373C;
pub const SUPERLIGHT_GRAY: u32 = 0xFFB4B4B4;
pub const MUTED_GRAY: u32 = 0xFF6B6B70;
pub const TRANSPARENT_GRAY: u32 = 0x56222222;
pub const GREEN: u32 = 0xFF01863B;
pub const TRANSPARENT: u32 = 0x00000000;

/// Whether a character is a hexadecimal digit of either case.
pub open spec fn is_hex_digit(c: char) -> bool {
    ('0' <= c && c <= '9') || ('a' <= c && c <= 'f') || ('A' <= c && c <= 'F')
}

/// The value of a hexadecimal digit.
pub open spec fn hex_digit_value(c: char) -> nat {
    if '0' <= c && c <= '9' {
        ((c as u32) - ('0' as u32)) as nat
    } else if 'a' <= c && c <= 'f' {
        ((c as u32) - ('a' as u32) + 10) as nat
    } else {
        ((c as u32) - ('A' as u32) + 10) as nat
    }
}

/// The value of a string of hexadecimal digits, most significant first.
pub open spec fn hex_value(d: Seq<char>) -> nat
    decreases d.len(),
{
    if d.len() == 0 {
        0
    } else {
        hex_value(d.drop_last()) * 16 + hex_digit_value(d.last())
    }
}

/// The digits of a radix-16 number: what follows an optional leading `+`.
pub open spec fn radix_digits(p: Seq<char>) -> Seq<char> {
    if p.len() > 0 && p[0] == '+' {
        p.drop_first()
    } else {
        p
    }
}

/// Whether `u32::from_str_radix(p, 16)` accepts `p`: an optional `+` and then
/// at least one hexadecimal digit, nothing else.
pub open spec fn radix16_accepts(p: Seq<char>) -> bool {
    let d = radix_digits(p);
    &&& d.len() > 0
    &&& forall|i: int| 0 <= i < d.len() ==> is_hex_digit(#[trigger] d[i])
}

/// What is left of a colour string once white space around it and the
/// leading `#` characters are gone.
pub open spec fn hex_payload(s: Seq<char>) -> Seq<char> {
    skip_while(trim(s), |c: char| c == '#')
}

/// The colour that a string such as `"#252B32"` or `"80FF0000"` names: six
/// digits give an opaque RGB colour, eight give ARGB; anything else none.
pub open spec fn parse_hex_spec(s: Seq<char>) -> Option<u32> {
    let p = hex_payload(s);
    if (p.len() == 6 || p.len() == 8) && radix16_accepts(p) {
        if p.len() == 6 {
            Some((0xFF000000 + hex_value(radix_digits(p))) as u32)
        } else {
            Some(hex_value(radix_digits(p)) as u32)
        }
    } else {
        None
    }
}

/// Powers of sixteen.
pub open spec fn pow16(k: nat) -> nat
    decreases k,
{
    if k == 0 {
        1
    } else {
        16 * pow16((k - 1) as nat)
    }
}

proof fn lemma_pow16_mono(a: nat, b: nat)
    requires
        a <= b,
    ensures
        pow16(a) <= pow16(b),
    decreases b,
{
    if a < b {
        lemma_pow16_mono(a, (b - 1) as nat);
    }
}

proof fn lemma_hex_value_bound(d: Seq<char>)
    requires
        forall|i: int| 0 <= i < d.len() ==> is_hex_digit(#[trigger] d[i]),
    ensures
        hex_value(d) < pow16(d.len()),
    decreases d.len(),
{
    if d.len() > 0 {
        let e = d.drop_last();
        assert forall|i: int| 0 <= i < e.len() implies is_hex_digit(#[trigger] e[i]) by {
            assert(e[i] == d[i]);
        }
        lemma_hex_value_bound(e);
        let c = d.last();
        assert(is_hex_digit(d[d.len() - 1]));
        assert(hex_digit_value(c) < 16);
        let h = hex_value(e);
        let p = pow16(e.len());
        assert(h * 16 + hex_digit_value(c) < 16 * p) by (nonlinear_arith)
            requires
                h < p,
                hex_digit_value(c) < 16,
        ;
    }
}

/// A string of six hexadecimal digits, each of `'0'..='9'`, `'a'..='f'` or
/// `'A'..='F'`, names the opaque colour `0xFF000000` plus the value of the
/// digits; a string of eight names the ARGB word of their value. A leading
/// `#` changes neither.
pub proof fn hex_digits_name_their_value(d: Seq<char>)
    requires
        d.len() == 6 || d.len() == 8,
        forall|i: int|
            0 <= i < d.len() ==> ('0' <= #[trigger] d[i] && d[i] <= '9') || ('a' <= d[i] && d[i]
                <= 'f') || ('A' <= d[i] && d[i] <= 'F'),
    ensures
        d.len() == 6 ==> (parse_hex_spec(d) matches Some(v) && v as int == 0xFF00_0000
            + hex_value(d)),
        d.len() == 8 ==> (parse_hex_spec(d) matches Some(v) && v as int == hex_value(d)),
        parse_hex_spec(seq!['#'] + d) == parse_hex_spec(d),
{
    let ws = |ch: char| is_unicode_whitespace(ch);
    let hash = |ch: char| ch == '#';
    let n = d.len() as int;
    assert(d[0] == d[0]);
    assert(d[n - 1] == d[n - 1]);
    lemma_skip_while(d, ws, 0);
    assert(d.skip(0) =~= d);
    lemma_drop_trailing(d, ws, n);
    assert(d.take(n) =~= d);
    lemma_skip_while(d, hash, 0);
    assert(hex_payload(d) == d);
    assert(radix_digits(d) == d);
    assert forall|i: int| 0 <= i < d.len() implies is_hex_digit(#[trigger] d[i]) by {}
    lemma_hex_value_bound(d);
    reveal_with_fuel(pow16, 9);
    let e = seq!['#'] + d;
    assert(e[0] == '#');
    assert(e[1] == d[0]);
    assert(e[e.len() - 1] == d[n - 1]);
    lemma_skip_while(e, ws, 0);
    assert(e.skip(0) =~= e);
    lemma_drop_trailing(e, ws, e.len() as int);
    assert(e.take(e.len() as int) =~= e);
    lemma_skip_while(e, hash, 1);
    assert(e.skip(1) =~= d);
    assert(hex_payload(e) == d);
}

fn hex_digit(c: char) -> (r: u32)
    requires
        is_hex_digit(c),
    ensures
        r == hex_digit_value(c),
        r < 16,
{
    if '0' <= c && c <= '9' {
        (c as u32) - ('0' as u32)
    } else if 'a' <= c && c <= 'f' {
        (c as u32) - ('a' as u32) + 10
    } else {
        (c as u32) - ('A' as u32) + 10
    }
}

fn is_hex_char(c: char) -> (r: bool)
    ensures
        r == is_hex_digit(c),
{
    ('0' <= c && c <= '9') || ('a' <= c && c <= 'f') || ('A' <= c && c <= 'F')
}

/// The bounds of the colour digits in `c`: white space around them and the
/// leading `#` characters lie outside.
fn payload_bounds(c: &Vec<char>) -> (r: (usize, usize))
    ensures
        r.0 <= r.1 <= c@.len(),
        hex_payload(c@) == c@.subrange(r.0 as int, r.1 as int),
{
    let n = c.len();
    let ghost s = c@;
    let ghost ws = |ch: char| is_unicode_whitespace(ch);
    let ghost hash = |ch: char| ch == '#';
    let mut start: usize = 0;
    while start < n && is_whitespace(c[start])
        invariant
            c@ == s,
            n == s.len(),
            start <= n,
            forall|i: int| 0 <= i < start ==> is_unicode_whitespace(#[trigger] s[i]),
        decreases n - start,
    {
        start = start + 1;
    }
    proof {
        lemma_skip_while(s, ws, start as int);
    }
    let ghost t0 = s.skip(start as int);
    let mut end: usize = n;
    while end > start && is_whitespace(c[end - 1])
        invariant
            c@ == s,
            n == s.len(),
            start <= end <= n,
            forall|i: int| end <= i < n ==> is_unicode_whitespace(#[trigger] s[i]),
        decreases end,
    {
        end = end - 1;
    }
    let ghost t = s.subrange(start as int, end as int);
    proof {
        assert forall|i: int| end - start <= i < t0.len() implies ws(#[trigger] t0[i]) by {
            assert(t0[i] == s[i + start]);
        }
        if end > start {
            assert(t0[end - start - 1] == s[end - 1]);
        }
        lemma_drop_trailing(t0, ws, end - start);
        assert(t0.take(end - start) =~= t);
    }
    let mut h: usize = start;
    while h < end && c[h] == '#'
        invariant
            c@ == s,
            n == s.len(),
            start <= h <= end <= n,
            forall|i: int| start <= i < h ==> #[trigger] s[i] == '#',
        decreases end - h,
    {
        h = h + 1;
    }
    proof {
        assert forall|i: int| 0 <= i < h - start implies hash(#[trigger] t[i]) by {
            assert(t[i] == s[i + start]);
        }
        if h < end {
            assert(t[h - start] == s[h as int]);
        }
        lemma_skip_while(t, hash, h - start);
        assert(t.skip(h - start) =~= s.subrange(h as int, end as int));
    }
    (h, end)
}

/// The value of the hexadecimal digits `c[d..end]`, or `None` where one of
/// them is not a hexadecimal digit.
fn digits_value(c: &Vec<char>, d: usize, end: usize) -> (r: Option<u32>)
    requires
        d <= end <= c@.len(),
        end - d <= 8,
    ensures
        r is Some <==> forall|j: int| d <= j < end ==> is_hex_digit(#[trigger] c@[j]),
        r matches Some(v) ==> v == hex_value(c@.subrange(d as int, end as int)) && v < pow16(
            (end - d) as nat,
        ),
{
    let ghost s = c@;
    let mut acc: u32 = 0;
    let mut i: usize = d;
    proof {
        reveal_with_fuel(pow16, 9);
        assert(pow16(8) == 0x1_0000_0000);
        assert(s.subrange(d as int, d as int) =~= Seq::<char>::empty());
    }
    while i < end
        invariant
            c@ == s,
            d <= i <= end <= s.len(),
            end - d <= 8,
            forall|j: int| d <= j < i ==> is_hex_digit(#[trigger] s[j]),
            acc == hex_value(s.subrange(d as int, i as int)),
            acc < pow16((i - d) as nat),
            pow16(8) == 0x1_0000_0000,
        decreases end - i,
    {
        let ch = c[i];
        if !is_hex_char(ch) {
            return None;
        }
        let v = hex_digit(ch);
        proof {
            lemma_pow16_mono((i - d + 1) as nat, 8);
            assert(s.subrange(d as int, i + 1).drop_last() =~= s.subrange(d as int, i as int));
        }
        acc = acc * 16 + v;
        i = i + 1;
    }
    Some(acc)
}

/// Parses a colour given as six (RGB) or eight (ARGB) hexadecimal digits,
/// optionally preceded by `#` and surrounded by white space.
pub fn parse_hex(hex: &str) -> (r: Option<u32>)
    ensures
        r == parse_hex_spec(hex@),
{
    let c = to_chars(hex);
    let (h, end) = payload_bounds(&c);
    let ghost p = hex_payload(hex@);
    let len = end - h;
    if len != 6 && len != 8 {
        return None;
    }
    let mut d: usize = h;
    if c[h] == '+' {
        d = h + 1;
    }
    let ghost digits = radix_digits(p);
    assert(digits =~= c@.subrange(d as int, end as int));
    match digits_value(&c, d, end) {
        None => {
            let ghost j = choose|j: int| d <= j < end && !is_hex_digit(#[trigger] c@[j]);
            assert(digits[j - d] == c@[j]);
            None
        },
        Some(acc) => {
            proof {
                assert forall|j: int| 0 <= j < digits.len() implies is_hex_digit(
                    #[trigger] digits[j],
                ) by {
                    assert(digits[j] == c@[j + d]);
                }
            }
            if len == 6 {
                proof {
                    lemma_pow16_mono((end - d) as nat, 6);
                    reveal_with_fuel(pow16, 7);
                }
                assert(acc < 0x100_0000);
                assert(0xFF00_0000u32 | acc == 0xFF00_0000u32 + acc) by (bit_vector)
                    requires
                        acc < 0x100_0000u32,
                ;
                Some(0xFF00_0000u32 | acc)
            } else {
                Some(acc)
            }
        },
    }
}

} // verus!
