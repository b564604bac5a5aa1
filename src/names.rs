//! Names of weekdays and months, for display.
use vstd::prelude::*;
use crate::codec::{DateField, ValidationError, RTCDate};

verus! {

/// A day of the week, Monday first.
#[derive(Debug, Clone, Copy, PartialEq, Eq, Structural)]
pub enum Day {
    Mon,
    Tue,
    Wed,
    Thu,
    Fri,
    Sat,
    Sun,
}

/// A month of the year.
#[derive(Debug, Clone, Copy, PartialEq, Eq, Structural)]
pub enum Month {
    Jan,
    Feb,
    Mar,
    Apr,
    May,
    Jun,
    Jul,
    Aug,
    Sep,
    Oct,
    Nov,
    Dec,
}

impl Day {
    /// The weekday's number, 1 for Monday to 7 for Sunday.
    pub open spec fn number(self) -> int {
        match self {
            Day::Mon => 1,
            Day::Tue => 2,
            Day::Wed => 3,
            Day::Thu => 4,
            Day::Fri => 5,
            Day::Sat => 6,
            Day::Sun => 7,
        }
    }

    /// The weekday with number `day`, or an error naming the weekday's range.
    pub fn from_u8(day: u8) -> (r: Result<Day, ValidationError>)
        ensures
            r is Ok <==> 1 <= day <= 7,
            r matches Ok(d) ==> d.number() == day,
            r matches Err(e) ==> e == (ValidationError { field: DateField::Day, min: 1, max: 7 }),
    {
        match day {
            1 => Ok(Day::Mon),
            2 => Ok(Day::Tue),
            3 => Ok(Day::Wed),
            4 => Ok(Day::Thu),
            5 => Ok(Day::Fri),
            6 => Ok(Day::Sat),
            7 => Ok(Day::Sun),
            _ => Err(ValidationError { field: DateField::Day, min: 1, max: 7 }),
        }
    }
}

impl Month {
    /// The month's number, 1 for January to 12 for December.
    pub open spec fn number(self) -> int {
        match self {
            Month::Jan => 1,
            Month::Feb => 2,
            Month::Mar => 3,
            Month::Apr => 4,
            Month::May => 5,
            Month::Jun => 6,
            Month::Jul => 7,
            Month::Aug => 8,
            Month::Sep => 9,
            Month::Oct => 10,
            Month::Nov => 11,
            Month::Dec => 12,
        }
    }

    /// The month with number `month`, or an error naming the month's range.
    pub fn from_u8(month: u8) -> (r: Result<Month, ValidationError>)
        ensures
            r is Ok <==> 1 <= month <= 12,
            r matches Ok(m) ==> m.number() == month,
            r matches Err(e) ==> e == (ValidationError { field: DateField::Month, min: 1, max: 12 }),
    {
        match month {
            1 => Ok(Month::Jan),
            2 => Ok(Month::Feb),
            3 => Ok(Month::Mar),
            4 => Ok(Month::Apr),
            5 => Ok(Month::May),
            6 => Ok(Month::Jun),
            7 => Ok(Month::Jul),
            8 => Ok(Month::Aug),
            9 => Ok(Month::Sep),
            10 => Ok(Month::Oct),
            11 => Ok(Month::Nov),
            12 => Ok(Month::Dec),
            _ => Err(ValidationError { field: DateField::Month, min: 1, max: 12 }),
        }
    }
}

impl RTCDate {
    /// The weekday and month of the date, for display; an out-of-range
    /// weekday is reported before an out-of-range month.
    pub fn names(&self) -> (r: Result<(Day, Month), ValidationError>)
        ensures
            r is Ok <==> 1 <= self.day <= 7 && 1 <= self.month <= 12,
            r matches Ok((d, m)) ==> d.number() == self.day && m.number() == self.month,
            r matches Err(e) ==> if 1 <= self.day <= 7 {
                e == (ValidationError { field: DateField::Month, min: 1, max: 12 })
            } else {
                e == (ValidationError { field: DateField::Day, min: 1, max: 7 })
            },
    {
        let day = match Day::from_u8(self.day) {
            Ok(d) => d,
            Err(e) => return Err(e),
        };
        let month = match Month::from_u8(self.month) {
            Ok(m) => m,
            Err(e) => return Err(e),
        };
        Ok((day, month))
    }
}

} // verus!
