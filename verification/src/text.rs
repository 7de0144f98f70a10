//! Small verified text-building helpers shared by the renderers: pushing a
//! character, decimal renderings of integers, and hexadecimal renderings of
//! bytes.

use vstd::prelude::*;

verus! {

/// The ten decimal digit characters, indexable from specifications.
pub const DEC_DIGITS: [char; 10] = ['0', '1', '2', '3', '4', '5', '6', '7', '8', '9'];

/// The sixteen lower-case hexadecimal digit characters.
pub const HEX_DIGITS: [char; 16] = [
    '0',
    '1',
    '2',
    '3',
    '4',
    '5',
    '6',
    '7',
    '8',
    '9',
    'a',
    'b',
    'c',
    'd',
    'e',
    'f',
];

/// Relies on std's `String::push`: appends exactly one character.
#[verifier::external_body]
pub fn push_char(s: &mut String, c: char)
    ensures
        final(s)@ == old(s)@.push(c),
{
    s.push(c);
}

/// Decimal rendering of a natural number, most significant digit first.
pub open spec fn dec_of(n: nat) -> Seq<char>
    decreases n,
{
    if n < 10 {
        seq![DEC_DIGITS@[n as int]]
    } else {
        dec_of(n / 10) + seq![DEC_DIGITS@[(n % 10) as int]]
    }
}

/// Decimal rendering of a signed number: a leading minus sign for negatives.
pub open spec fn dec_of_int(i: int) -> Seq<char> {
    if i < 0 {
        seq!['-'] + dec_of((-i) as nat)
    } else {
        dec_of(i as nat)
    }
}

/// Appends the decimal rendering of `n` to `s`.
pub fn push_u64(s: &mut String, n: u64)
    ensures
        final(s)@ == old(s)@ + dec_of(n as nat),
    decreases n,
{
    if n >= 10 {
        push_u64(s, n / 10);
    }
    let d: usize = (n % 10) as usize;
    push_char(s, DEC_DIGITS[d]);
    proof {
        if n < 10 {
            assert(dec_of(n as nat) == seq![DEC_DIGITS@[n as int]]);
        }
        assert(final(s)@ =~= old(s)@ + dec_of(n as nat));
    }
}

/// Appends the decimal rendering of `i`, with a minus sign when negative.
pub fn push_i32(s: &mut String, i: i32)
    ensures
        final(s)@ == old(s)@ + dec_of_int(i as int),
{
    if i < 0 {
        push_char(s, '-');
        let magnitude: u64 = (-(i as i64)) as u64;
        push_u64(s, magnitude);
        proof {
            assert(final(s)@ =~= old(s)@ + dec_of_int(i as int));
        }
    } else {
        push_u64(s, i as u64);
    }
}

/// Two-digit lower-case hexadecimal rendering of one byte.
pub open spec fn hex_of_byte(b: u8) -> Seq<char> {
    seq![HEX_DIGITS@[(b / 16) as int], HEX_DIGITS@[(b % 16) as int]]
}

/// Appends the two-digit hexadecimal rendering of `b` to `s`.
pub fn push_hex_byte(s: &mut String, b: u8)
    ensures
        final(s)@ == old(s)@ + hex_of_byte(b),
{
    let hi: usize = (b / 16) as usize;
    let lo: usize = (b % 16) as usize;
    push_char(s, HEX_DIGITS[hi]);
    push_char(s, HEX_DIGITS[lo]);
    proof {
        assert(final(s)@ =~= old(s)@ + hex_of_byte(b));
    }
}

} // verus!
