//! The clock of a world: the instant of a compilation, captured at most
//! once, and the calendar date derived from it.

use crate::outside::{civil_date, date_at_offset, date_in_local_zone, utc_now};
use vstd::prelude::*;

verus! {

/// A calendar date.
#[derive(Debug, Clone, Copy, PartialEq, Eq, Structural)]
pub struct Date {
    pub year: i32,
    /// From 1 to 12.
    pub month: u8,
    /// From 1 to 31.
    pub day: u8,
}

/// The instant that "today" is derived from, in seconds since the Unix
/// epoch.
#[derive(Debug, Clone, Copy, PartialEq, Eq, Structural)]
pub enum Now {
    /// An instant fixed from outside, for reproducible output.
    Fixed(i64),
    /// The system time, captured when a compilation first asks for it.
    System(Option<i64>),
}

/// A whole-hour offset from UTC in seconds, where that fits 32 bits.
pub open spec fn offset_seconds(hours: i64) -> Option<i32> {
    if i32::MIN <= hours * 3600 <= i32::MAX {
        Some((hours * 3600) as i32)
    } else {
        None
    }
}

/// The date made of a year, a month and a day.
pub open spec fn date_of(parts: Option<(i32, u32, u32)>) -> Option<Date> {
    match parts {
        Some((year, month, day)) => if month <= u8::MAX && day <= u8::MAX {
            Some(Date { year, month: month as u8, day: day as u8 })
        } else {
            None
        },
        None => None,
    }
}

/// The date of an instant at a whole-hour offset from UTC: none for an
/// offset that does not fit 32 bits in seconds, or that chrono refuses.
pub open spec fn date_at_hours(timestamp: i64, hours: i64) -> Option<Date> {
    match offset_seconds(hours) {
        Some(seconds) => date_of(civil_date(timestamp, seconds)),
        None => None,
    }
}

/// Whether `date` is the date of the instant at some offset of less than a
/// day from UTC.
pub open spec fn local_date(timestamp: i64, date: Option<Date>) -> bool {
    exists|offset_seconds: i32|
        -86_400 < offset_seconds < 86_400 && date == date_of(
            #[trigger] civil_date(timestamp, offset_seconds),
        )
}

/// How a clock changes when it is asked for today's date, and what it
/// answers.
///
/// Afterwards the clock has an instant: the one it had, or else the system
/// time as it was read. With a whole-hour offset the date is that of the
/// instant at the offset, and there is none for an offset of a day or more.
/// Without an offset the date is that of the instant in the time zone of
/// the machine, which is the date at some offset of less than a day.
pub open spec fn told(pre: Now, offset: Option<i64>, post: Now, date: Option<Date>) -> bool {
    &&& post.captured() is Some
    &&& pre.captured() is Some ==> post == pre
    &&& pre == Now::System(None) ==> post is System
    &&& offset matches Some(hours) ==> date == date_at_hours(post.captured()->0, hours)
    &&& offset matches Some(hours) ==> (hours <= -24 || hours >= 24) ==> date is None
    &&& offset is None ==> local_date(post.captured()->0, date)
    &&& date matches Some(d) ==> 1 <= d.month <= 12 && 1 <= d.day <= 31
}

/// The date made of a year, a month and a day, where there are any.
pub fn make_date(parts: Option<(i32, u32, u32)>) -> (date: Option<Date>)
    ensures
        date == date_of(parts),
{
    match parts {
        Some((year, month, day)) => {
            if month <= 255 && day <= 255 {
                Some(Date { year, month: month as u8, day: day as u8 })
            } else {
                None
            }
        },
        None => None,
    }
}

impl Now {
    /// The instant in use, once there is one.
    pub open spec fn captured(self) -> Option<i64> {
        match self {
            Now::Fixed(timestamp) => Some(timestamp),
            Now::System(timestamp) => timestamp,
        }
    }

    /// A clock that follows the system time and has captured nothing yet.
    pub fn system() -> (now: Self)
        ensures
            now == Now::System(None),
    {
        Now::System(None)
    }

    /// Forgets a captured system time, so that the next compilation
    /// captures its own. A fixed instant stays.
    pub fn reset(&mut self)
        ensures
            *final(self) == match *old(self) {
                Now::Fixed(timestamp) => Now::Fixed(timestamp),
                Now::System(_) => Now::System(None),
            },
    {
        if let Now::System(_) = self {
            *self = Now::System(None);
        }
    }

    /// The instant of the compilation. The system time is read on the first
    /// call after a reset and kept until the next reset.
    pub fn instant(&mut self) -> (timestamp: i64)
        ensures
            final(self).captured() == Some(timestamp),
            old(self).captured() is Some ==> *final(self) == *old(self),
            *old(self) == Now::System(None) ==> *final(self) == Now::System(Some(timestamp)),
    {
        match *self {
            Now::Fixed(timestamp) => timestamp,
            Now::System(Some(timestamp)) => timestamp,
            Now::System(None) => {
                let timestamp = utc_now();
                *self = Now::System(Some(timestamp));
                timestamp
            },
        }
    }

    /// Today's date at the given whole-hour offset from UTC, or in the time
    /// zone of the machine where none is given. Every call between two
    /// resets works from the same instant.
    pub fn today(&mut self, offset: Option<i64>) -> (date: Option<Date>)
        ensures
            told(*old(self), offset, *final(self), date),
    {
        let timestamp = self.instant();
        match offset {
            None => make_date(date_in_local_zone(timestamp)),
            Some(hours) => {
                if -596523 <= hours && hours <= 596523 {
                    let seconds = (hours * 3600) as i32;
                    make_date(date_at_offset(timestamp, seconds))
                } else {
                    None
                }
            },
        }
    }
}

} // verus!
