//! The JSON form of USB vendor and product ids: `0x` and four lowercase
//! hexadecimal digits on the way out; on the way in an optional `0x`
//! prefix followed by what `u16::from_str_radix(_, 16)` accepts.

use vstd::prelude::*;
use crate::text::{chars_of, hex_char, hex_u16_text, hex_value, push_hex_u16};

verus! {

/// Why a hexadecimal id failed to parse (the kinds of std's `ParseIntError`).
#[derive(Debug, Clone, Copy, PartialEq, Eq, Structural)]
pub enum HexParseError {
    /// Nothing to parse.
    Empty,
    /// A character that is not a hexadecimal digit, or a lone sign.
    InvalidDigit,
    /// The value does not fit in a `u16`.
    PosOverflow,
}

/// `s` without one leading `0x`, if it has one.
pub open spec fn strip_0x(s: Seq<char>) -> Seq<char> {
    if s.len() >= 2 && s[0] == '0' && s[1] == 'x' {
        s.subrange(2, s.len() as int)
    } else {
        s
    }
}

/// Reads the digits left to right onto `acc`: the first non-digit is an
/// invalid digit, the first step past 65535 an overflow.
pub open spec fn fold_hex(digits: Seq<char>, acc: nat) -> Result<nat, HexParseError>
    decreases digits.len(),
{
    if digits.len() == 0 {
        Ok(acc)
    } else {
        match hex_value(digits[0]) {
            None => Err(HexParseError::InvalidDigit),
            Some(d) => {
                if acc * 16 + d > 0xffff {
                    Err(HexParseError::PosOverflow)
                } else {
                    fold_hex(digits.drop_first(), acc * 16 + d)
                }
            },
        }
    }
}

/// `u16::from_str_radix(s, 16)`: an optional `+`, then at least one
/// hexadecimal digit of either case.
pub open spec fn parse_radix16(s: Seq<char>) -> Result<nat, HexParseError> {
    if s.len() == 0 {
        Err(HexParseError::Empty)
    } else if s.len() == 1 && (s[0] == '+' || s[0] == '-') {
        Err(HexParseError::InvalidDigit)
    } else if s[0] == '+' {
        fold_hex(s.drop_first(), 0)
    } else {
        fold_hex(s, 0)
    }
}

/// The text of an id in JSON: `{:#06x}`, e.g. `0x03eb`.
pub fn serialize(v: u16) -> (r: String)
    ensures
        r@ == hex_u16_text(v),
{
    let mut r = String::new();
    push_hex_u16(&mut r, v);
    assert(r@ =~= hex_u16_text(v));
    r
}

fn digit_value(c: char) -> (r: Option<u32>)
    ensures
        match hex_value(c) {
            None => r is None,
            Some(d) => r == Some(d as u32),
        },
{
    if '0' <= c && c <= '9' {
        Some((c as u32) - ('0' as u32))
    } else if 'a' <= c && c <= 'f' {
        Some((c as u32) - ('a' as u32) + 10)
    } else if 'A' <= c && c <= 'F' {
        Some((c as u32) - ('A' as u32) + 10)
    } else {
        None
    }
}

/// Reads an id from its JSON text.
pub fn deserialize(raw: &str) -> (r: Result<u16, HexParseError>)
    ensures
        match parse_radix16(strip_0x(raw@)) {
            Ok(v) => r == Ok::<u16, HexParseError>(v as u16),
            Err(e) => r == Err::<u16, HexParseError>(e),
        },
{
    let cs = chars_of(raw);
    let n = cs.len();
    let mut start: usize = 0;
    if n >= 2 && cs[0] == '0' && cs[1] == 'x' {
        start = 2;
    }
    let ghost body = strip_0x(raw@);
    assert(body =~= cs@.subrange(start as int, n as int));
    if start == n {
        return Err(HexParseError::Empty);
    }
    if n - start == 1 && (cs[start] == '+' || cs[start] == '-') {
        return Err(HexParseError::InvalidDigit);
    }
    let mut k = start;
    if cs[start] == '+' {
        k = start + 1;
        assert(body.drop_first() =~= cs@.subrange(k as int, n as int));
    }
    let ghost total = parse_radix16(body);
    let mut acc: u32 = 0;
    assert(total == fold_hex(cs@.subrange(k as int, n as int), acc as nat));
    while k < n
        invariant
            start <= k <= n,
            n == cs@.len(),
            acc <= 0xffff,
            total == parse_radix16(strip_0x(raw@)),
            total == fold_hex(cs@.subrange(k as int, n as int), acc as nat),
        decreases n - k,
    {
        let ghost rest = cs@.subrange(k as int, n as int);
        assert(rest[0] == cs@[k as int]);
        assert(rest.drop_first() =~= cs@.subrange(k + 1, n as int));
        match digit_value(cs[k]) {
            None => {
                return Err(HexParseError::InvalidDigit);
            },
            Some(d) => {
                if acc * 16 + d > 0xffff {
                    return Err(HexParseError::PosOverflow);
                }
                acc = acc * 16 + d;
            },
        }
        k = k + 1;
    }
    Ok(acc as u16)
}

proof fn lemma_hex_digit_value(d: nat)
    requires
        d < 16,
    ensures
        hex_value(hex_char(d)) == Some(d),
{
}

/// A vendor or product id read back from its JSON text is the id that was
/// written.
pub proof fn lemma_hex_roundtrip(v: u16)
    ensures
        parse_radix16(strip_0x(hex_u16_text(v))) == Ok::<nat, HexParseError>(v as nat),
{
    let t = hex_u16_text(v);
    let d3 = (v as nat / 4096) % 16;
    let d2 = (v as nat / 256) % 16;
    let d1 = (v as nat / 16) % 16;
    let d0 = v as nat % 16;
    lemma_hex_digit_value(d3);
    lemma_hex_digit_value(d2);
    lemma_hex_digit_value(d1);
    lemma_hex_digit_value(d0);
    let body = strip_0x(t);
    assert(body =~= seq![hex_char(d3), hex_char(d2), hex_char(d1), hex_char(d0)]);
    assert(hex_char(d3) != '+');
    assert(((d3 * 16 + d2) * 16 + d1) * 16 + d0 == v as nat) by (nonlinear_arith)
        requires
            d3 == (v as nat / 4096) % 16,
            d2 == (v as nat / 256) % 16,
            d1 == (v as nat / 16) % 16,
            d0 == v as nat % 16,
            v as nat <= 0xffff,
    ;
    assert(body.drop_first() =~= seq![hex_char(d2), hex_char(d1), hex_char(d0)]);
    assert(body.drop_first().drop_first() =~= seq![hex_char(d1), hex_char(d0)]);
    assert(body.drop_first().drop_first().drop_first() =~= seq![hex_char(d0)]);
    assert(body.drop_first().drop_first().drop_first().drop_first() =~= Seq::<char>::empty());
    assert(d3 * 16 + d2 <= 0xffff);
    assert((d3 * 16 + d2) * 16 + d1 <= 0xffff);
    let b1 = body.drop_first();
    let b2 = b1.drop_first();
    let b3 = b2.drop_first();
    let b4 = b3.drop_first();
    let a3 = d3;
    let a2 = d3 * 16 + d2;
    let a1 = a2 * 16 + d1;
    let a0 = a1 * 16 + d0;
    assert(fold_hex(b4, a0) == Ok::<nat, HexParseError>(a0));
    assert(fold_hex(b3, a1) == fold_hex(b4, a0));
    assert(fold_hex(b2, a2) == fold_hex(b3, a1));
    assert(fold_hex(b1, a3) == fold_hex(b2, a2));
    assert(fold_hex(body, 0) == fold_hex(b1, a3));
}

} // verus!
