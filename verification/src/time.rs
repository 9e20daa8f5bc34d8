//! Calendar time as the real time clock keeps it, and durations in timer ticks.

use vstd::prelude::*;

verus! {

/// `embassy_stm32::rtc::DayOfWeek`: a day from Monday to Sunday, which is only passed on here.
#[verifier::external_type_specification]
#[verifier::external_body]
pub struct ExDayOfWeek(embassy_stm32::rtc::DayOfWeek);

/// A date and a time of day.
#[derive(Clone, Copy, Debug, PartialEq, Eq)]
pub struct DateTime {
    pub year: u16,
    pub month: u8,
    pub day: u8,
    pub day_of_week: embassy_stm32::rtc::DayOfWeek,
    pub hour: u8,
    pub minute: u8,
    pub second: u8,
    pub microsecond: u32,
}

impl DateTime {
    /// Every field is in its range. All months count as having 31 days.
    pub open spec fn valid(self) -> bool {
        &&& self.year <= 4095
        &&& 1 <= self.month <= 12
        &&& 1 <= self.day <= 31
        &&& self.hour <= 23
        &&& self.minute <= 59
        &&& self.second <= 59
        &&& self.microsecond <= 999_999
    }

    /// `self` where it is valid, nothing otherwise.
    pub open spec fn checked(self) -> Option<DateTime> {
        if self.valid() {
            Some(self)
        } else {
            None
        }
    }

    /// The given date and time, if it is one.
    pub fn new(
        year: u16,
        month: u8,
        day: u8,
        day_of_week: embassy_stm32::rtc::DayOfWeek,
        hour: u8,
        minute: u8,
        second: u8,
        microsecond: u32,
    ) -> (r: Option<DateTime>)
        ensures
            r == (DateTime { year, month, day, day_of_week, hour, minute, second, microsecond })
                .checked(),
    {
        rtc_date_time(year, month, day, day_of_week, hour, minute, second, microsecond)
    }

    /// Tells whether every field is in its range.
    pub fn is_valid(&self) -> (r: bool)
        ensures
            r == self.valid(),
    {
        DateTime::new(
            self.year,
            self.month,
            self.day,
            self.day_of_week,
            self.hour,
            self.minute,
            self.second,
            self.microsecond,
        ).is_some()
    }
}

/// Calls `embassy_stm32::rtc::DateTime::from`, which takes the fields as they are if each is in
/// its range and fails otherwise, and reads the fields back.
#[verifier::external_body]
fn rtc_date_time(
    year: u16,
    month: u8,
    day: u8,
    day_of_week: embassy_stm32::rtc::DayOfWeek,
    hour: u8,
    minute: u8,
    second: u8,
    usecond: u32,
) -> (r: Option<DateTime>)
    ensures
        r == (DateTime {
            year,
            month,
            day,
            day_of_week,
            hour,
            minute,
            second,
            microsecond: usecond,
        }).checked(),
{
    match embassy_stm32::rtc::DateTime::from(year, month, day, day_of_week, hour, minute, second, usecond) {
        Ok(t) => {
            let (year, month, day, day_of_week) = (t.year(), t.month(), t.day(), t.day_of_week());
            let (hour, minute, second) = (t.hour(), t.minute(), t.second());
            let microsecond = t.microsecond();
            Some(DateTime { year, month, day, day_of_week, hour, minute, second, microsecond })
        },
        Err(_) => None,
    }
}

/// Timer ticks in a second: the tick rate that `embassy_time` is built with.
pub const TICKS_PER_SECOND: u64 = 1_000_000;

/// Timer ticks in a millisecond.
pub const TICKS_PER_MILLISECOND: u64 = 1_000;

/// Calls `embassy_time::Duration::from_secs`, which multiplies the seconds by the tick rate, and
/// gives the duration's ticks. The product has to fit.
#[verifier::external_body]
pub(crate) fn ticks_of_secs(secs: u64) -> (ticks: u64)
    requires
        secs * TICKS_PER_SECOND <= u64::MAX,
    ensures
        ticks == secs * TICKS_PER_SECOND,
{
    embassy_time::Duration::from_secs(secs).as_ticks()
}

/// Calls `embassy_time::Duration::from_millis`, which multiplies the milliseconds by the ticks in
/// one (the tick rate is a multiple of 1000, so nothing is rounded), and gives the duration's
/// ticks. The product has to fit.
#[verifier::external_body]
pub(crate) fn ticks_of_millis(millis: u64) -> (ticks: u64)
    requires
        millis * TICKS_PER_MILLISECOND < u64::MAX,
    ensures
        ticks == millis * TICKS_PER_MILLISECOND,
{
    embassy_time::Duration::from_millis(millis).as_ticks()
}

/// A date and time is one exactly if all its fields are in range, and it is then taken as it is.
pub proof fn times_in_range_are_taken(time: DateTime)
    ensures
        time.valid() <==> time.year < 4096 && 0 < time.month < 13 && 0 < time.day < 32 && time.hour
            < 24 && time.minute < 60 && time.second < 60 && time.microsecond < 1_000_000,
        time.valid() <==> time.checked() is Some,
        time.checked() matches Some(taken) ==> taken == time,
{
}

} // verus!
