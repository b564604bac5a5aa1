//! Binary-coded decimal: one decimal digit in each nibble of a byte.
use vstd::prelude::*;
use vstd::arithmetic::div_mod::lemma_fundamental_div_mod_converse;

verus! {

/// The byte that holds `d` (below one hundred) as two decimal digits:
/// tens in the high nibble, ones in the low nibble.
pub open spec fn bcd_of(d: int) -> int {
    16 * (d / 10) + d % 10
}

/// The number a byte stands for when read as two decimal digits,
/// whatever its nibbles hold: ten times the high nibble plus the low one.
pub open spec fn bcd_value(b: int) -> int {
    10 * (b / 16) + b % 16
}

/// Packs a value below one hundred into two decimal digits.
pub fn dec_to_bcd(dec: u8) -> (r: u8)
    requires
        dec < 100,
    ensures
        r == bcd_of(dec as int),
        r < 0xA0,
{
    let tens: u8 = dec / 10;
    let ones: u8 = dec % 10;
    assert(((tens << 4u8) | ones) == 16 * tens + ones) by (bit_vector)
        requires
            tens < 10,
            ones < 10,
    ;
    (tens << 4u8) | ones
}

/// Reads a byte as two decimal digits. Nibbles above nine are not refused:
/// the result is the formula's, at most 165.
pub fn bcd_to_dec(bcd: u8) -> (r: u8)
    ensures
        r == bcd_value(bcd as int),
        r <= 165,
{
    let high: u8 = bcd >> 4u8;
    let low: u8 = bcd & 0x0Fu8;
    assert(high == bcd / 16 && low == bcd % 16) by (bit_vector)
        requires
            high == bcd >> 4u8,
            low == bcd & 0x0Fu8,
    ;
    high * 10 + low
}

/// Reading back the digits of a value below one hundred gives the value.
pub proof fn lemma_bcd_round_trip(d: int)
    requires
        0 <= d < 100,
    ensures
        bcd_value(bcd_of(d)) == d,
        0 <= bcd_of(d) <= 0x99,
{
    lemma_fundamental_div_mod_converse(bcd_of(d), 16, d / 10, d % 10);
}

/// Every value below one hundred survives packing and unpacking.
pub proof fn lemma_bcd_round_trip_all()
    ensures
        forall|d: int| 0 <= d < 100 ==> #[trigger] bcd_value(bcd_of(d)) == d,
{
    assert forall|d: int| 0 <= d < 100 implies #[trigger] bcd_value(bcd_of(d)) == d by {
        lemma_bcd_round_trip(d);
    }
}

} // verus!
