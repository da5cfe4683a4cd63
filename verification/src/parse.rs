//! Parsing of HTML-like hex colour arguments.
//!
//! A colour is written as an optional run of `#` signs followed by 3, 4, 6
//! or 8 hexadecimal digits.  Three or six digits give RGB with full alpha;
//! four or eight give RGBA with an explicit alpha digit pair.  In the short
//! forms every digit is doubled (`#abc` means `#aabbcc`).

use crate::errors::ParseHexError;
use vstd::prelude::*;

verus! {

/// `c` is an ASCII hexadecimal digit.
pub open spec fn is_hex_digit(c: char) -> bool {
    ||| ('0' as u32) <= c as u32 <= ('9' as u32)
    ||| ('a' as u32) <= c as u32 <= ('f' as u32)
    ||| ('A' as u32) <= c as u32 <= ('F' as u32)
}

/// The numeric value of a hexadecimal digit (0 for any other character).
pub open spec fn hex_digit_value(c: char) -> nat {
    if ('0' as u32) <= c as u32 <= ('9' as u32) {
        (c as u32 - '0' as u32) as nat
    } else if ('a' as u32) <= c as u32 <= ('f' as u32) {
        (c as u32 - 'a' as u32 + 10) as nat
    } else if ('A' as u32) <= c as u32 <= ('F' as u32) {
        (c as u32 - 'A' as u32 + 10) as nat
    } else {
        0
    }
}

pub open spec fn all_hex_digits(s: Seq<char>) -> bool {
    forall|i: int| 0 <= i < s.len() ==> is_hex_digit(#[trigger] s[i])
}

/// The number written by the digit string `s`, read base 16.
pub open spec fn hex_value(s: Seq<char>) -> nat
    decreases s.len(),
{
    if s.len() == 0 {
        0
    } else {
        16 * hex_value(s.drop_last()) + hex_digit_value(s.last())
    }
}

/// 16 to the power `n`.
pub open spec fn pow16(n: nat) -> nat
    decreases n,
{
    if n == 0 {
        1
    } else {
        16 * pow16((n - 1) as nat)
    }
}

/// `s` without one optional leading plus sign.
pub open spec fn strip_plus(s: Seq<char>) -> Seq<char> {
    if s.len() > 0 && s[0] == '+' {
        s.drop_first()
    } else {
        s
    }
}

/// `s` without all leading `#` signs.
pub open spec fn strip_hashes(s: Seq<char>) -> Seq<char>
    decreases s.len(),
{
    if s.len() > 0 && s[0] == '#' {
        strip_hashes(s.drop_first())
    } else {
        s
    }
}

/// What parsing a plain digit string yields: the empty string is refused,
/// then one leading `+` is allowed, every remaining character must be a
/// hexadecimal digit, and the value must fit in 32 bits.
pub open spec fn spec_parse_hex_slice(s: Seq<char>) -> Result<u32, ParseHexError> {
    let t = strip_plus(s);
    if s.len() == 0 {
        Err(ParseHexError::Empty)
    } else if t.len() == 0 || !all_hex_digits(t) {
        Err(ParseHexError::InvalidDigit)
    } else if hex_value(t) > u32::MAX {
        Err(ParseHexError::Overflow)
    } else {
        Ok(hex_value(t) as u32)
    }
}

/// What parsing a colour argument yields, by the length left after the
/// leading `#` signs: 3 or 4 digits are spread (each digit doubled), with
/// the fourth digit as alpha or alpha forced to `FF`; 6 or 8 digits are
/// read whole, with alpha forced to `FF` in the 6-digit form.
pub open spec fn spec_parse_hex(s: Seq<char>) -> Result<u32, ParseHexError> {
    let h = strip_hashes(s);
    if h.len() == 3 || h.len() == 4 {
        if !all_hex_digits(h) {
            Err(ParseHexError::InvalidDigit)
        } else {
            let rgb = 0x11_0000 * hex_digit_value(h[0]) + 0x1100 * hex_digit_value(h[1]) + 0x11
                * hex_digit_value(h[2]);
            if h.len() == 4 {
                Ok((0x1100_0000 * hex_digit_value(h[3]) + rgb) as u32)
            } else {
                Ok((0xFF00_0000 + rgb) as u32)
            }
        }
    } else if h.len() == 6 || h.len() == 8 {
        match spec_parse_hex_slice(h) {
            Ok(v) => if h.len() == 6 {
                Ok((0xFF00_0000 + v) as u32)
            } else {
                Ok(v)
            },
            Err(e) => Err(e),
        }
    } else {
        Err(ParseHexError::BadLength)
    }
}

/// A digit string's value is below 16 to its length.
pub proof fn lemma_hex_value_bound(s: Seq<char>)
    ensures
        hex_value(s) < pow16(s.len()),
    decreases s.len(),
{
    if s.len() > 0 {
        lemma_hex_value_bound(s.drop_last());
        assert(hex_digit_value(s.last()) <= 15);
    }
}

/// A digit string that starts with a nonzero digit is at least 16 to the
/// power of one less than its length.
pub proof fn lemma_hex_value_lower(s: Seq<char>)
    requires
        s.len() > 0,
        hex_digit_value(s[0]) >= 1,
    ensures
        hex_value(s) >= pow16((s.len() - 1) as nat),
    decreases s.len(),
{
    if s.len() == 1 {
        assert(s.drop_last().len() == 0);
    } else {
        lemma_hex_value_lower(s.drop_last());
    }
}

pub proof fn lemma_pow16_monotone(a: nat, b: nat)
    requires
        a <= b,
    ensures
        pow16(a) <= pow16(b),
    decreases b,
{
    if a < b {
        lemma_pow16_monotone(a, (b - 1) as nat);
    }
}

/// A leading zero digit does not change a digit string's value.
pub proof fn lemma_hex_value_drop_leading_zero(s: Seq<char>)
    requires
        s.len() > 0,
        hex_digit_value(s[0]) == 0,
    ensures
        hex_value(s) == hex_value(s.drop_first()),
    decreases s.len(),
{
    assert(hex_value(s) == 16 * hex_value(s.drop_last()) + hex_digit_value(s.last()));
    if s.len() == 1 {
        assert(s.drop_last().len() == 0);
        assert(s.drop_first().len() == 0);
        assert(hex_value(s.drop_last()) == 0);
        assert(hex_value(s.drop_first()) == 0);
        assert(s.last() == s[0]);
    } else {
        assert(s.drop_last()[0] == s[0]);
        lemma_hex_value_drop_leading_zero(s.drop_last());
        assert(s.drop_last().drop_first() =~= s.drop_first().drop_last());
        assert(s.drop_first().last() == s.last());
        assert(hex_value(s.drop_first()) == 16 * hex_value(s.drop_first().drop_last())
            + hex_digit_value(s.drop_first().last()));
    }
}

/// Decides `is_hex_digit`.
fn hex_digit_check(c: char) -> (b: bool)
    ensures
        b == is_hex_digit(c),
{
    let u: u32 = c as u32;
    (('0' as u32) <= u && u <= ('9' as u32)) || (('a' as u32) <= u && u <= ('f' as u32)) || (('A'
        as u32) <= u && u <= ('F' as u32))
}

/// Computes `hex_digit_value` of a hexadecimal digit.
fn hex_digit_val(c: char) -> (d: u32)
    requires
        is_hex_digit(c),
    ensures
        d == hex_digit_value(c),
{
    let u: u32 = c as u32;
    if u <= ('9' as u32) {
        u - ('0' as u32)
    } else if u >= ('a' as u32) {
        u - ('a' as u32) + 10
    } else {
        u - ('A' as u32) + 10
    }
}

/// Parses a string of hexadecimal digits, with one optional leading plus
/// sign, into a 32-bit value.
pub fn parse_hex_slice(slice: &str) -> (r: Result<u32, ParseHexError>)
    ensures
        r == spec_parse_hex_slice(slice@),
{
    let ghost s: Seq<char> = slice@;
    let n: usize = slice.unicode_len();
    if n == 0 {
        return Err(ParseHexError::Empty);
    }
    let mut start: usize = 0;
    if slice.get_char(0) == '+' {
        start = 1;
    }
    let ghost t: Seq<char> = strip_plus(s);
    proof {
        assert(t =~= s.subrange(start as int, n as int));
    }
    if start == n {
        return Err(ParseHexError::InvalidDigit);
    }
    let mut j: usize = start;
    while j < n
        invariant
            start <= j <= n,
            n == s.len(),
            s == slice@,
            t == strip_plus(s),
            t == s.subrange(start as int, n as int),
            forall|idx: int| start <= idx < j ==> is_hex_digit(#[trigger] s[idx]),
        decreases n - j,
    {
        let c = slice.get_char(j);
        if !hex_digit_check(c) {
            proof {
                assert(t[j as int - start as int] == s[j as int]);
                assert(!is_hex_digit(t[j as int - start as int]));
                assert(!all_hex_digits(t));
            }
            return Err(ParseHexError::InvalidDigit);
        }
        j += 1;
    }
    assert(forall|idx: int| 0 <= idx < t.len() ==> is_hex_digit(#[trigger] t[idx])) by {
        assert(forall|idx: int| 0 <= idx < t.len() ==> t[idx] == s[start + idx]);
    }
    let mut k: usize = start;
    while k < n
        invariant_except_break
            start <= k <= n,
            n == s.len(),
            s == slice@,
            forall|idx: int| start <= idx < n ==> is_hex_digit(#[trigger] s[idx]),
            hex_value(s.subrange(start as int, n as int)) == hex_value(
                s.subrange(k as int, n as int),
            ),
        ensures
            start <= k <= n,
            n == s.len(),
            hex_value(s.subrange(start as int, n as int)) == hex_value(
                s.subrange(k as int, n as int),
            ),
            k < n ==> s[k as int] as u32 != '0' as u32,
        decreases n - k,
    {
        let c = slice.get_char(k);
        if (c as u32) != ('0' as u32) {
            break ;
        }
        proof {
            let rest = s.subrange(k as int, n as int);
            assert(hex_digit_value(rest[0]) == 0);
            lemma_hex_value_drop_leading_zero(rest);
            assert(rest.drop_first() =~= s.subrange(k + 1, n as int));
        }
        k += 1;
    }
    if n - k > 8 {
        proof {
            let rest = s.subrange(k as int, n as int);
            assert(is_hex_digit(rest[0]) && rest[0] as u32 != '0' as u32);
            assert(hex_digit_value(rest[0]) >= 1);
            lemma_hex_value_lower(rest);
            lemma_pow16_monotone(8, (rest.len() - 1) as nat);
            reveal_with_fuel(pow16, 9);
            assert(pow16(8) == 0x1_0000_0000);
            assert(hex_value(t) > u32::MAX);
        }
        return Err(ParseHexError::Overflow);
    }
    let mut acc: u32 = 0;
    let mut m: usize = k;
    while m < n
        invariant
            k <= m <= n,
            n == s.len(),
            s == slice@,
            n - k <= 8,
            forall|idx: int| start <= idx < n ==> is_hex_digit(#[trigger] s[idx]),
            start <= k,
            acc == hex_value(s.subrange(k as int, m as int)),
            acc < pow16((m - k) as nat),
        decreases n - m,
    {
        let c = slice.get_char(m);
        let d: u32 = hex_digit_val(c);
        proof {
            reveal_with_fuel(pow16, 9);
            lemma_pow16_monotone((m - k) as nat, 7);
            assert(acc < pow16(7));
            assert(pow16(7) == 0x1000_0000);
        }
        acc = acc * 16 + d;
        proof {
            let prefix = s.subrange(k as int, m as int);
            let extended = s.subrange(k as int, m + 1);
            assert(extended.drop_last() =~= prefix);
            assert(extended.last() == s[m as int]);
        }
        m += 1;
    }
    proof {
        assert(s.subrange(k as int, n as int) =~= s.subrange(k as int, m as int));
        assert(hex_value(t) == acc);
    }
    Ok(acc)
}

/// Parses an HTML-colour-like hex argument into an ARGB value.
#[verifier::rlimit(50)]
pub fn parse_hex(hex: &str) -> (r: Result<u32, ParseHexError>)
    ensures
        r == spec_parse_hex(hex@),
{
    let ghost s: Seq<char> = hex@;
    let n: usize = hex.unicode_len();
    proof {
        assert(s.subrange(0int, n as int) =~= s);
    }
    let mut i: usize = 0;
    while i < n
        invariant_except_break
            0 <= i <= n,
            n == s.len(),
            s == hex@,
            strip_hashes(s) == strip_hashes(s.subrange(i as int, n as int)),
        ensures
            0 <= i <= n,
            n == s.len(),
            strip_hashes(s) == strip_hashes(s.subrange(i as int, n as int)),
            i < n ==> s[i as int] != '#',
        decreases n - i,
    {
        if hex.get_char(i) != '#' {
            break ;
        }
        proof {
            assert(s.subrange(i as int, n as int).drop_first() =~= s.subrange(i + 1, n as int));
        }
        i += 1;
    }
    let ghost h: Seq<char> = strip_hashes(s);
    proof {
        assert(h =~= s.subrange(i as int, n as int));
        assert(forall|idx: int| 0 <= idx < h.len() ==> h[idx] == s[i + idx]);
    }
    let len: usize = n - i;
    if len == 3 || len == 4 {
        let c0 = hex.get_char(i);
        let c1 = hex.get_char(i + 1);
        let c2 = hex.get_char(i + 2);
        if !(hex_digit_check(c0) && hex_digit_check(c1) && hex_digit_check(c2)) {
            return Err(ParseHexError::InvalidDigit);
        }
        let v0: u32 = hex_digit_val(c0);
        let v1: u32 = hex_digit_val(c1);
        let v2: u32 = hex_digit_val(c2);
        assert(v0 <= 15 && v1 <= 15 && v2 <= 15);
        let rgb: u32 = 0x11_0000 * v0 + 0x1100 * v1 + 0x11 * v2;
        if len == 4 {
            let c3 = hex.get_char(i + 3);
            if !hex_digit_check(c3) {
                return Err(ParseHexError::InvalidDigit);
            }
            let v3: u32 = hex_digit_val(c3);
            assert(v3 <= 15);
            Ok(0x1100_0000 * v3 + rgb)
        } else {
            Ok(0xFF00_0000 + rgb)
        }
    } else if len == 6 || len == 8 {
        let digits = hex.substring_char(i, n);
        let parsed = parse_hex_slice(digits);
        match parsed {
            Ok(v) => {
                if len == 6 {
                    proof {
                        let t = strip_plus(h);
                        assert(t.len() <= 6);
                        lemma_hex_value_bound(t);
                        lemma_pow16_monotone(t.len(), 6);
                        reveal_with_fuel(pow16, 7);
                        assert(pow16(6) == 0x100_0000);
                        assert(v <= 0xFF_FFFF);
                    }
                    Ok(0xFF00_0000 + v)
                } else {
                    Ok(v)
                }
            },
            Err(e) => Err(e),
        }
    } else {
        Err(ParseHexError::BadLength)
    }
}

} // verus!
