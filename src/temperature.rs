//! The die temperature: a signed whole-degree register and a register whose
//! top two bits count quarter degrees.
use vstd::prelude::*;

verus! {

/// Number of temperature registers.
pub const NUM_TEMP_REGS: usize = 2;
/// Register offset of the whole degrees.
pub const REG_TEMPS: u8 = 0x11;

/// A byte read as a two's-complement signed number.
pub open spec fn signed_byte(b: u8) -> int {
    if b >= 0x80 { b - 256 } else { b as int }
}

/// The temperature in quarter degrees Celsius: four times the signed whole
/// degrees plus the quarter count in bits 6 and 7 of the second register.
pub open spec fn quarters_of(integer_part: u8, fraction_reg: u8) -> int {
    4 * signed_byte(integer_part) + fraction_reg / 64
}

/// Reads the temperature registers as a count of quarter degrees Celsius;
/// a quarter count of 1 adds 0.25, of 3 adds 0.75, to the whole degrees.
pub fn temperature_quarters(integer_part: u8, fraction_reg: u8) -> (r: i16)
    ensures
        r == quarters_of(integer_part, fraction_reg),
        -512 <= r < 512,
{
    let whole: i16 = if integer_part >= 0x80 {
        integer_part as i16 - 256
    } else {
        integer_part as i16
    };
    let quarters: u8 = fraction_reg >> 6u8;
    assert(quarters == fraction_reg / 64) by (bit_vector)
        requires
            quarters == fraction_reg >> 6u8,
    ;
    4 * whole + quarters as i16
}

} // verus!
