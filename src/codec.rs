//! The calendar registers: seven bytes, seconds first, packed as decimal
//! digits with a 24-hour mode bit and a century bit.
use vstd::prelude::*;
use crate::bcd::{bcd_of, bcd_value, dec_to_bcd, bcd_to_dec, lemma_bcd_round_trip};

verus! {

/// Number of calendar registers, starting at offset zero.
pub const NUM_CLOCK_AND_CALENDAR_REGS: usize = 7;
/// Register offset of the seconds, where a calendar transfer starts.
pub const REG_SECONDS: u8 = 0x00;
/// Hours are stored with bit 6 set: the chip runs in 24-hour mode.
pub const CLOCK_TOGGLE: u8 = 0x40;
/// Bit 7 of the month register: the second century after the start year.
pub const CENTURY_FLAG: u8 = 0x80;
/// The hour digits below the mode bits.
pub const HOURS_MASK: u8 = 0x3F;
/// The month digits below the century bit.
pub const MONTH_MASK: u8 = 0x1F;

/// A wall-clock time and calendar date. `day` is the weekday, 1 for Monday;
/// `date` is the day of the month; `year` is absolute.
#[derive(Debug, Default, Clone, Copy, PartialEq, Eq, Structural)]
pub struct RTCDate {
    pub seconds: u8,
    pub minutes: u8,
    pub hours: u8,
    pub day: u8,
    pub date: u8,
    pub month: u8,
    pub year: u32,
}

/// The field of a date that a value was refused for.
#[derive(Debug, Clone, Copy, PartialEq, Eq, Structural)]
pub enum DateField {
    Seconds,
    Minutes,
    Hours,
    Day,
    Date,
    Month,
    Year,
}

/// A value outside the range `min..=max` that its field allows.
#[derive(Debug, Clone, Copy, PartialEq, Eq, Structural)]
pub struct ValidationError {
    pub field: DateField,
    pub min: u64,
    pub max: u64,
}

/// Lowest value that `f` allows.
pub open spec fn field_min(f: DateField, start_year: u32) -> u64 {
    match f {
        DateField::Seconds | DateField::Minutes | DateField::Hours => 0,
        DateField::Day | DateField::Date | DateField::Month => 1,
        DateField::Year => start_year as u64,
    }
}

/// Highest value that `f` allows: two centuries of years fit the chip.
pub open spec fn field_max(f: DateField, start_year: u32) -> u64 {
    match f {
        DateField::Seconds | DateField::Minutes => 59,
        DateField::Hours => 23,
        DateField::Day => 7,
        DateField::Date => 31,
        DateField::Month => 12,
        DateField::Year => (start_year + 199) as u64,
    }
}

/// The error that names field `f` with its range.
pub open spec fn error_for(f: DateField, start_year: u32) -> ValidationError {
    ValidationError { field: f, min: field_min(f, start_year), max: field_max(f, start_year) }
}

/// Years after the start year that the chip can hold.
pub open spec fn year_in_range(year: u32, start_year: u32) -> bool {
    start_year <= year && year - start_year <= 199
}

/// The first field of `d`, in register order, whose value is out of range.
pub open spec fn first_invalid(d: RTCDate, start_year: u32) -> Option<DateField> {
    if d.seconds > 59 {
        Some(DateField::Seconds)
    } else if d.minutes > 59 {
        Some(DateField::Minutes)
    } else if d.hours > 23 {
        Some(DateField::Hours)
    } else if d.day < 1 || d.day > 7 {
        Some(DateField::Day)
    } else if d.date < 1 || d.date > 31 {
        Some(DateField::Date)
    } else if d.month < 1 || d.month > 12 {
        Some(DateField::Month)
    } else if !year_in_range(d.year, start_year) {
        Some(DateField::Year)
    } else {
        None
    }
}

impl RTCDate {
    /// Every field lies in its range.
    pub open spec fn is_valid(&self, start_year: u32) -> bool {
        first_invalid(*self, start_year) is None
    }
}

/// The century bit is set from the hundredth year after the start year on.
pub open spec fn century_of(offset: int) -> int {
    if offset >= 100 { 0x80 } else { 0 }
}

/// The seven register bytes that hold a valid date.
pub open spec fn register_image(d: RTCDate, start_year: u32) -> Seq<u8> {
    let offset = d.year - start_year;
    seq![
        bcd_of(d.seconds as int) as u8,
        bcd_of(d.minutes as int) as u8,
        (0x40 + bcd_of(d.hours as int)) as u8,
        bcd_of(d.day as int) as u8,
        bcd_of(d.date as int) as u8,
        (century_of(offset) + bcd_of(d.month as int)) as u8,
        bcd_of(offset % 100) as u8,
    ]
}

/// Years after the start year that a year register and a month register
/// stand for: the year digits, plus one hundred when the century bit is set.
pub open spec fn normal_years(reg_years: u8, reg_month_century: u8) -> int {
    bcd_value(reg_years as int) + if reg_month_century >= 0x80 { 100int } else { 0int }
}

/// The date that seven register bytes stand for. The hours lose their two
/// mode bits and the month its century bit before the digits are read.
pub open spec fn decoded(regs: Seq<u8>, start_year: u32) -> RTCDate {
    RTCDate {
        seconds: bcd_value(regs[0] as int) as u8,
        minutes: bcd_value(regs[1] as int) as u8,
        hours: bcd_value(regs[2] as int % 64) as u8,
        day: bcd_value(regs[3] as int) as u8,
        date: bcd_value(regs[4] as int) as u8,
        month: bcd_value(regs[5] as int % 32) as u8,
        year: (start_year + normal_years(regs[6], regs[5])) as u32,
    }
}

/// The hours register: the digits with the 24-hour mode bit forced on.
pub fn calculate_reg_hours(normal_hours: u8) -> (r: u8)
    requires
        normal_hours <= 23,
    ensures
        r == 0x40 + bcd_of(normal_hours as int),
        r & CLOCK_TOGGLE == CLOCK_TOGGLE,
{
    let digits = dec_to_bcd(normal_hours);
    proof {
        lemma_bcd_round_trip(normal_hours as int);
    }
    assert(digits <= 0x23 ==> (CLOCK_TOGGLE | digits) == 0x40 + digits
        && (CLOCK_TOGGLE | digits) & CLOCK_TOGGLE == CLOCK_TOGGLE) by (bit_vector);
    CLOCK_TOGGLE | digits
}

/// The month register: the month digits, with bit 7 set for the second
/// century after the start year.
pub fn calculate_reg_month_century(normal_month: u8, normal_year: u32, start_year: u32) -> (r: u8)
    requires
        1 <= normal_month <= 12,
        year_in_range(normal_year, start_year),
    ensures
        r == century_of(normal_year - start_year) + bcd_of(normal_month as int),
        (r & CENTURY_FLAG == CENTURY_FLAG) <==> normal_year - start_year >= 100,
{
    let digits = dec_to_bcd(normal_month);
    let century: u8 = if normal_year - start_year >= 100 { CENTURY_FLAG } else { 0 };
    assert(digits <= 0x12 && (century == 0 || century == 0x80) ==>
        (century | digits) == century + digits
        && ((century | digits) & 0x80 == 0x80 <==> century == 0x80)) by (bit_vector);
    century | digits
}

/// The year register: the last two digits of the years after the start year.
pub fn calculate_reg_year(normal_year: u32, start_year: u32) -> (r: u8)
    requires
        year_in_range(normal_year, start_year),
    ensures
        r == bcd_of((normal_year - start_year) % 100),
{
    dec_to_bcd(((normal_year - start_year) % 100) as u8)
}

/// Years after the start year, read from the year and month registers.
/// Digits above nine are read by the formula, not refused.
pub fn calculate_normal_years(reg_years: u8, reg_month_century: u8) -> (r: u16)
    ensures
        r == normal_years(reg_years, reg_month_century),
        r <= 265,
{
    let years = bcd_to_dec(reg_years) as u16;
    assert(reg_month_century & CENTURY_FLAG != 0 <==> reg_month_century >= 0x80) by (bit_vector);
    if reg_month_century & CENTURY_FLAG != 0 {
        years + 100
    } else {
        years
    }
}

/// Checks every field of `date` against its range, in register order, and
/// names the first that is out of it.
pub fn validate_date(date: &RTCDate, start_year: u32) -> (r: Result<(), ValidationError>)
    ensures
        r is Ok <==> date.is_valid(start_year),
        r matches Err(e) ==> first_invalid(*date, start_year) == Some(e.field)
            && e == error_for(e.field, start_year),
{
    let field = if date.seconds > 59 {
        DateField::Seconds
    } else if date.minutes > 59 {
        DateField::Minutes
    } else if date.hours > 23 {
        DateField::Hours
    } else if date.day < 1 || date.day > 7 {
        DateField::Day
    } else if date.date < 1 || date.date > 31 {
        DateField::Date
    } else if date.month < 1 || date.month > 12 {
        DateField::Month
    } else if date.year < start_year || date.year - start_year > 199 {
        DateField::Year
    } else {
        return Ok(());
    };
    let (min, max): (u64, u64) = match field {
        DateField::Seconds | DateField::Minutes => (0, 59),
        DateField::Hours => (0, 23),
        DateField::Day => (1, 7),
        DateField::Date => (1, 31),
        DateField::Month => (1, 12),
        DateField::Year => (start_year as u64, start_year as u64 + 199),
    };
    Err(ValidationError { field, min, max })
}

/// The register bytes for `date`, or the first field out of range. Nothing
/// is produced for a date that is not valid.
pub fn encode_date(date: &RTCDate, start_year: u32) -> (r: Result<[u8; 7], ValidationError>)
    ensures
        r is Ok <==> date.is_valid(start_year),
        r matches Ok(regs) ==> regs@ == register_image(*date, start_year),
        r matches Err(e) ==> first_invalid(*date, start_year) == Some(e.field)
            && e == error_for(e.field, start_year),
{
    match validate_date(date, start_year) {
        Err(e) => Err(e),
        Ok(()) => {
            let regs: [u8; 7] = [
                dec_to_bcd(date.seconds),
                dec_to_bcd(date.minutes),
                calculate_reg_hours(date.hours),
                dec_to_bcd(date.day),
                dec_to_bcd(date.date),
                calculate_reg_month_century(date.month, date.year, start_year),
                calculate_reg_year(date.year, start_year),
            ];
            assert(regs@ =~= register_image(*date, start_year));
            Ok(regs)
        },
    }
}

/// The date that the seven calendar registers hold. No byte is refused:
/// digits above nine are read by the formula.
pub fn decode_date(regs: &[u8; 7], start_year: u32) -> (r: RTCDate)
    requires
        start_year + 265 <= u32::MAX,
    ensures
        r == decoded(regs@, start_year),
{
    let hours_reg: u8 = regs[2] & HOURS_MASK;
    let month_reg: u8 = regs[5] & MONTH_MASK;
    let b2 = regs[2];
    let b5 = regs[5];
    assert(b2 & 0x3Fu8 == b2 % 64 && b5 & 0x1Fu8 == b5 % 32) by (bit_vector);
    let years = calculate_normal_years(regs[6], regs[5]);
    RTCDate {
        seconds: bcd_to_dec(regs[0]),
        minutes: bcd_to_dec(regs[1]),
        hours: bcd_to_dec(hours_reg),
        day: bcd_to_dec(regs[3]),
        date: bcd_to_dec(regs[4]),
        month: bcd_to_dec(month_reg),
        year: start_year + years as u32,
    }
}

/// Decoding the registers of a valid date gives the date back, whatever
/// the start year.
pub proof fn lemma_round_trip(d: RTCDate, start_year: u32)
    requires
        d.is_valid(start_year),
    ensures
        decoded(register_image(d, start_year), start_year) == d,
{
    let regs = register_image(d, start_year);
    let offset = d.year - start_year;
    lemma_bcd_round_trip(d.seconds as int);
    lemma_bcd_round_trip(d.minutes as int);
    lemma_bcd_round_trip(d.hours as int);
    lemma_bcd_round_trip(d.day as int);
    lemma_bcd_round_trip(d.date as int);
    lemma_bcd_round_trip(d.month as int);
    lemma_bcd_round_trip(offset % 100);
    assert(regs[2] as int % 64 == bcd_of(d.hours as int));
    assert(regs[5] as int % 32 == bcd_of(d.month as int));
    assert(normal_years(regs[6], regs[5]) == offset);
}

/// The century bit is set exactly from the hundredth year after the start
/// year on, and decoding reads the year back on either side of it.
pub proof fn lemma_century_bit(d: RTCDate, start_year: u32)
    requires
        d.is_valid(start_year),
    ensures
        register_image(d, start_year)[5] & CENTURY_FLAG == CENTURY_FLAG
            <==> d.year - start_year >= 100,
        decoded(register_image(d, start_year), start_year).year == d.year,
{
    lemma_bcd_round_trip(d.month as int);
    lemma_round_trip(d, start_year);
    let b = register_image(d, start_year)[5];
    assert(b & 0x80u8 == 0x80u8 <==> b >= 0x80) by (bit_vector);
}

/// The hours register of every valid date has its 24-hour mode bit set.
pub proof fn lemma_hours_mode_bit_set(d: RTCDate, start_year: u32)
    requires
        d.is_valid(start_year),
    ensures
        register_image(d, start_year)[2] & CLOCK_TOGGLE == CLOCK_TOGGLE,
{
    lemma_bcd_round_trip(d.hours as int);
    let b = register_image(d, start_year)[2];
    assert(0x40 <= b < 0x80 ==> b & 0x40u8 == 0x40u8) by (bit_vector);
}

/// The hours register is read the same with or without its 24-hour mode bit.
pub proof fn lemma_hours_mode_bit_ignored(regs: Seq<u8>, start_year: u32)
    requires
        regs.len() == 7,
    ensures
        decoded(regs.update(2, regs[2] | CLOCK_TOGGLE), start_year)
            == decoded(regs.update(2, regs[2] & !CLOCK_TOGGLE), start_year),
{
    let b = regs[2];
    assert((b | 0x40u8) % 64 == (b & !0x40u8) % 64) by (bit_vector);
}

} // verus!
