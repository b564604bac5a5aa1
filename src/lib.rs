//! Driver logic for a battery-backed real-time clock chip: the packed
//! register layout of its calendar, its temperature reading, and the
//! commands a front end can issue.
pub mod bcd;
pub mod cli;
pub mod codec;
pub mod names;
pub mod temperature;

pub use bcd::{bcd_to_dec, dec_to_bcd};
pub use cli::{CommandType, RTCCli, SetCommand};
pub use codec::{
    calculate_normal_years, calculate_reg_hours, calculate_reg_month_century, calculate_reg_year,
    decode_date, encode_date, validate_date, DateField, RTCDate, ValidationError,
};
pub use names::{Day, Month};
pub use temperature::temperature_quarters;
