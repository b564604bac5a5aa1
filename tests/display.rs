use rtc_rs::{temperature_quarters, CommandType, DateField, Day, Month, RTCCli, RTCDate, SetCommand, ValidationError};

fn celsius(integer_part: u8, fraction_reg: u8) -> f32 {
    temperature_quarters(integer_part, fraction_reg) as f32 / 4.0
}

#[test]
fn temperature_positive_quarter() {
    assert_eq!(temperature_quarters(25, 0x40), 101);
    assert_eq!(celsius(25, 0x40), 25.25);
}

#[test]
fn temperature_negative_whole_with_fraction() {
    assert_eq!(temperature_quarters(0xFF, 0xC0), -1);
    assert_eq!(celsius(0xFF, 0xC0), -0.25);
}

#[test]
fn temperature_zero() {
    assert_eq!(temperature_quarters(0, 0), 0);
    assert_eq!(celsius(0, 0), 0.0);
}

#[test]
fn temperature_ignores_low_bits_and_spans_range() {
    assert_eq!(temperature_quarters(25, 0x3F), 100);
    assert_eq!(celsius(25, 0x80), 25.5);
    assert_eq!(temperature_quarters(0x7F, 0xC0), 511);
    assert_eq!(temperature_quarters(0x80, 0x00), -512);
}

#[test]
fn weekday_numbers() {
    assert_eq!(Day::from_u8(1), Ok(Day::Mon));
    assert_eq!(Day::from_u8(3), Ok(Day::Wed));
    assert_eq!(Day::from_u8(7), Ok(Day::Sun));
    let err = ValidationError { field: DateField::Day, min: 1, max: 7 };
    assert_eq!(Day::from_u8(0), Err(err));
    assert_eq!(Day::from_u8(8), Err(err));
}

#[test]
fn month_numbers() {
    assert_eq!(Month::from_u8(1), Ok(Month::Jan));
    assert_eq!(Month::from_u8(9), Ok(Month::Sep));
    assert_eq!(Month::from_u8(12), Ok(Month::Dec));
    let err = ValidationError { field: DateField::Month, min: 1, max: 12 };
    assert_eq!(Month::from_u8(0), Err(err));
    assert_eq!(Month::from_u8(13), Err(err));
}

#[test]
fn date_names() {
    let date = RTCDate { seconds: 45, minutes: 30, hours: 12, day: 3, date: 15, month: 9, year: 2024 };
    assert_eq!(date.names(), Ok((Day::Wed, Month::Sep)));
    let bad_day = RTCDate { day: 9, month: 13, ..date };
    assert_eq!(bad_day.names().unwrap_err().field, DateField::Day);
    let bad_month = RTCDate { month: 13, ..date };
    assert_eq!(bad_month.names().unwrap_err().field, DateField::Month);
}

#[test]
fn set_command_to_date() {
    let cmd = SetCommand { seconds: 1, minutes: 2, hours: 3, date: 4, month: 5, year: 2026, day: 6 };
    let date = cmd.to_date();
    assert_eq!(date, RTCDate { seconds: 1, minutes: 2, hours: 3, day: 6, date: 4, month: 5, year: 2026 });
    let cli = RTCCli { command_type: CommandType::SetDate(cmd) };
    assert!(matches!(cli.command_type, CommandType::SetDate(_)));
}
