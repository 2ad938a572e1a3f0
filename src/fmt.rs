//! Rendering of integers as ASCII digits, as diagnostic messages show them:
//! addresses as `0x` and lowercase hexadecimal, counts in decimal.
use vstd::prelude::*;

verus! {

/// The ASCII character of a digit below 16: `0`-`9`, then `a`-`f`.
pub open spec fn digit_char(d: nat) -> u8 {
    if d < 10 {
        (48 + d) as u8
    } else {
        (87 + d) as u8
    }
}

/// `n` in lowercase hexadecimal, most significant digit first, without
/// leading zeros (zero is a single `0`).
pub open spec fn hex_of(n: nat) -> Seq<u8>
    decreases n,
{
    if n < 16 {
        seq![digit_char(n)]
    } else {
        hex_of(n / 16).push(digit_char(n % 16))
    }
}

/// `n` in decimal, most significant digit first, without leading zeros.
pub open spec fn dec_of(n: nat) -> Seq<u8>
    decreases n,
{
    if n < 10 {
        seq![digit_char(n)]
    } else {
        dec_of(n / 10).push(digit_char(n % 10))
    }
}

/// The ASCII character of a digit below 16.
fn digit_byte(d: usize) -> (c: u8)
    requires
        d < 16,
    ensures
        c == digit_char(d as nat),
{
    if d < 10 {
        48u8 + d as u8
    } else {
        87u8 + d as u8
    }
}

/// Appends `n` in lowercase hexadecimal to `v`.
pub fn push_hex(v: &mut Vec<u8>, n: usize)
    ensures
        final(v)@ == old(v)@ + hex_of(n as nat),
    decreases n,
{
    if n >= 16 {
        push_hex(v, n / 16);
    }
    v.push(digit_byte(n % 16));
    assert(v@ =~= old(v)@ + hex_of(n as nat));
}

/// Appends `n` in decimal to `v`.
pub fn push_dec(v: &mut Vec<u8>, n: usize)
    ensures
        final(v)@ == old(v)@ + dec_of(n as nat),
    decreases n,
{
    if n >= 10 {
        push_dec(v, n / 10);
    }
    v.push(digit_byte(n % 10));
    assert(v@ =~= old(v)@ + dec_of(n as nat));
}

} // verus!
