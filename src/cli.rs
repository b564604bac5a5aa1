//! The commands a front end can issue to the clock.
use vstd::prelude::*;
use crate::codec::RTCDate;

verus! {

/// A parsed command line: one command.
#[derive(Debug, Clone, Copy, PartialEq, Eq, Structural)]
pub struct RTCCli {
    pub command_type: CommandType,
}

/// What the front end asks of the clock.
#[derive(Debug, Clone, Copy, PartialEq, Eq, Structural)]
pub enum CommandType {
    /// Read the calendar.
    Get,
    /// Write the calendar.
    SetDate(SetCommand),
    /// Read the temperature.
    Temp,
}

/// The fields of a calendar write, in the order they are given on the
/// command line, the weekday last.
#[derive(Debug, Clone, Copy, PartialEq, Eq, Structural)]
pub struct SetCommand {
    pub seconds: u8,
    pub minutes: u8,
    pub hours: u8,
    pub date: u8,
    pub month: u8,
    pub year: u32,
    pub day: u8,
}

impl SetCommand {
    /// The date that the command writes, each field carried over unchanged.
    pub fn to_date(&self) -> (r: RTCDate)
        ensures
            r == (RTCDate {
                seconds: self.seconds,
                minutes: self.minutes,
                hours: self.hours,
                day: self.day,
                date: self.date,
                month: self.month,
                year: self.year,
            }),
    {
        RTCDate {
            seconds: self.seconds,
            minutes: self.minutes,
            hours: self.hours,
            day: self.day,
            date: self.date,
            month: self.month,
            year: self.year,
        }
    }
}

} // verus!
