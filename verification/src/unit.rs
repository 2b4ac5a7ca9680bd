//! The unit transcoder: a pure map from (unit type, point in time,
//! change flags) to a typed value or an explicit "no value" marker.
//!
//! Fractional values are carried as exact ratios of integers; turning a
//! ratio into a wire float is left to the unverified rim of the program.

use vstd::prelude::*;

use crate::time::{spec_days_in_month, spec_year_digit, days_in_month, year_digit, Timestamp};

verus! {

/// The closed set of time-derived quantities and their encodings.
///
/// `UpdateHandler` is the sentinel that marks an address as an inbound
/// trigger rather than a broadcast value.
#[derive(Debug, Clone, Copy, PartialEq, Eq, Structural)]
pub enum UnitType {
    SecondInt,
    SecondFloat,
    MinuteInt,
    MinuteFloat,
    MinuteFloatMixed,
    Hour24Int,
    Hour24Float,
    Hour24FloatMixed,
    Hour12Int,
    Hour12Float,
    Hour12FloatMixed,
    IsPm,
    DayInt,
    DayFloat,
    DayFloatMixed,
    DayOfWeekInt,
    DayOfWeekFloat,
    DayOfWeekFloatMixed,
    MonthInt,
    MonthFloat,
    MonthFloatMixed,
    Year,
    Year0,
    Year1,
    Year2,
    Year3,
    UpdateHandler,
}

/// Which coarser cadences changed since the previous tick.
///
/// The three bits are computed independently of one another: none implies
/// any other.
#[derive(Debug, Clone, Copy, PartialEq, Eq, Structural)]
pub struct SyncFlag {
    pub minute: bool,
    pub hour: bool,
    pub day: bool,
}

impl SyncFlag {
    /// All three cadence bits set: a full resync.
    pub fn all() -> (r: SyncFlag)
        ensures
            r == (SyncFlag { minute: true, hour: true, day: true }),
    {
        SyncFlag { minute: true, hour: true, day: true }
    }

    /// No cadence bit set.
    pub fn none() -> (r: SyncFlag)
        ensures
            r == (SyncFlag { minute: false, hour: false, day: false }),
    {
        SyncFlag { minute: false, hour: false, day: false }
    }
}

/// An exact nonnegative fraction `num / den`.
#[derive(Debug, Clone, Copy, PartialEq, Eq, Structural)]
pub struct Ratio {
    pub num: u32,
    pub den: u32,
}

/// A transcoded value: a typed scalar, or `Nil` for "no value".
#[derive(Debug, Clone, Copy, PartialEq, Eq, Structural)]
pub enum UnitValue {
    Nil,
    Int(i32),
    Bool(bool),
    Fraction(Ratio),
}

/// The minute-cadence group: suppressed while the MINUTE bit is unset.
pub open spec fn is_minute_unit(u: UnitType) -> bool {
    match u {
        UnitType::MinuteInt | UnitType::MinuteFloat | UnitType::MinuteFloatMixed => true,
        _ => false,
    }
}

/// The hour-cadence group: suppressed while the HOUR bit is unset.
pub open spec fn is_hour_unit(u: UnitType) -> bool {
    match u {
        UnitType::Hour24Int | UnitType::Hour24Float | UnitType::Hour24FloatMixed
        | UnitType::Hour12Int | UnitType::Hour12Float | UnitType::Hour12FloatMixed
        | UnitType::IsPm => true,
        _ => false,
    }
}

/// The day-cadence group: suppressed while the DAY bit is unset.
pub open spec fn is_day_unit(u: UnitType) -> bool {
    match u {
        UnitType::DayInt | UnitType::DayFloat | UnitType::DayFloatMixed
        | UnitType::DayOfWeekInt | UnitType::DayOfWeekFloat | UnitType::DayOfWeekFloatMixed
        | UnitType::MonthInt | UnitType::MonthFloat | UnitType::MonthFloatMixed
        | UnitType::Year | UnitType::Year0 | UnitType::Year1 | UnitType::Year2
        | UnitType::Year3 => true,
        _ => false,
    }
}

/// Whether the change flags gate this unit type out on this tick.
/// Second-cadence units and the handler sentinel are never gated.
pub open spec fn spec_suppressed(u: UnitType, f: SyncFlag) -> bool {
    ||| !f.minute && is_minute_unit(u)
    ||| !f.hour && is_hour_unit(u)
    ||| !f.day && is_day_unit(u)
}

/// The hour on a 12-hour dial: `1..=12`, with both 0 and 12 o'clock shown
/// as 12.
pub open spec fn spec_hour12(hour: int) -> int {
    if hour % 12 == 0 {
        12
    } else {
        hour % 12
    }
}

/// What the transcoder returns: the value of `u` at `t`, or `Nil` where
/// the flags gate it out or `u` is the handler sentinel.
pub open spec fn spec_transcode(u: UnitType, t: Timestamp, f: SyncFlag) -> UnitValue {
    let dim = spec_days_in_month(t.year as int, t.month as int);
    let day_secs = (t.day - 1) * 86400 + t.hour * 3600 + t.minute * 60 + t.second;
    if spec_suppressed(u, f) {
        UnitValue::Nil
    } else {
        match u {
            UnitType::SecondInt => UnitValue::Int(t.second as i32),
            UnitType::SecondFloat => UnitValue::Fraction(Ratio { num: t.second, den: 60 }),
            UnitType::MinuteInt => UnitValue::Int(t.minute as i32),
            UnitType::MinuteFloat => UnitValue::Fraction(Ratio { num: t.minute, den: 60 }),
            UnitType::MinuteFloatMixed => UnitValue::Fraction(
                Ratio { num: (t.minute * 60 + t.second) as u32, den: 3600 },
            ),
            UnitType::Hour24Int => UnitValue::Int(t.hour as i32),
            UnitType::Hour24Float => UnitValue::Fraction(Ratio { num: t.hour, den: 24 }),
            UnitType::Hour24FloatMixed => UnitValue::Fraction(
                Ratio { num: (t.hour * 3600 + t.minute * 60 + t.second) as u32, den: 86400 },
            ),
            UnitType::Hour12Int => UnitValue::Int(spec_hour12(t.hour as int) as i32),
            UnitType::Hour12Float => UnitValue::Fraction(
                Ratio { num: spec_hour12(t.hour as int) as u32, den: 12 },
            ),
            UnitType::Hour12FloatMixed => UnitValue::Fraction(
                Ratio {
                    num: (spec_hour12(t.hour as int) * 3600 + t.minute * 60 + t.second) as u32,
                    den: 43200,
                },
            ),
            UnitType::IsPm => UnitValue::Bool(t.hour >= 12),
            UnitType::DayInt => UnitValue::Int(t.day as i32),
            UnitType::DayFloat => UnitValue::Fraction(Ratio { num: t.day, den: dim as u32 }),
            UnitType::DayFloatMixed => UnitValue::Fraction(
                Ratio { num: day_secs as u32, den: (dim * 86400) as u32 },
            ),
            UnitType::DayOfWeekInt => UnitValue::Int(t.weekday as i32),
            UnitType::DayOfWeekFloat => UnitValue::Fraction(Ratio { num: t.weekday, den: 7 }),
            UnitType::DayOfWeekFloatMixed => UnitValue::Fraction(
                Ratio {
                    num: (t.weekday * 86400 + t.hour * 3600 + t.minute * 60 + t.second) as u32,
                    den: 604800,
                },
            ),
            UnitType::MonthInt => UnitValue::Int(t.month as i32),
            UnitType::MonthFloat => UnitValue::Fraction(Ratio { num: t.month, den: 12 }),
            UnitType::MonthFloatMixed => UnitValue::Fraction(
                Ratio {
                    num: ((t.month - 1) * dim * 86400 + day_secs) as u32,
                    den: (12 * dim * 86400) as u32,
                },
            ),
            UnitType::Year => UnitValue::Int(t.year),
            UnitType::Year0 => UnitValue::Int(spec_year_digit(t.year as int, 0) as i32),
            UnitType::Year1 => UnitValue::Int(spec_year_digit(t.year as int, 1) as i32),
            UnitType::Year2 => UnitValue::Int(spec_year_digit(t.year as int, 2) as i32),
            UnitType::Year3 => UnitValue::Int(spec_year_digit(t.year as int, 3) as i32),
            UnitType::UpdateHandler => UnitValue::Nil,
        }
    }
}

/// Transcode one unit type at the given point in time under the given
/// change flags: a typed scalar, or `Nil` where the flags gate the unit
/// out or it is the handler sentinel.
pub fn handle_unit(unit_type: UnitType, t: &Timestamp, sync_flag: SyncFlag) -> (r: UnitValue)
    requires
        t.wf(),
    ensures
        r == spec_transcode(unit_type, *t, sync_flag),
{
    let is_minute = matches!(
        unit_type,
        UnitType::MinuteInt | UnitType::MinuteFloat | UnitType::MinuteFloatMixed
    );
    let is_hour = matches!(
        unit_type,
        UnitType::Hour24Int | UnitType::Hour24Float | UnitType::Hour24FloatMixed
            | UnitType::Hour12Int | UnitType::Hour12Float | UnitType::Hour12FloatMixed
            | UnitType::IsPm
    );
    let is_day = matches!(
        unit_type,
        UnitType::DayInt | UnitType::DayFloat | UnitType::DayFloatMixed
            | UnitType::DayOfWeekInt | UnitType::DayOfWeekFloat
            | UnitType::DayOfWeekFloatMixed | UnitType::MonthInt | UnitType::MonthFloat
            | UnitType::MonthFloatMixed | UnitType::Year | UnitType::Year0
            | UnitType::Year1 | UnitType::Year2 | UnitType::Year3
    );
    if (!sync_flag.minute && is_minute) || (!sync_flag.hour && is_hour)
        || (!sync_flag.day && is_day) {
        return UnitValue::Nil;
    }
    match unit_type {
        UnitType::SecondInt => UnitValue::Int(t.second as i32),
        UnitType::SecondFloat => UnitValue::Fraction(Ratio { num: t.second, den: 60 }),
        UnitType::MinuteInt => UnitValue::Int(t.minute as i32),
        UnitType::MinuteFloat => UnitValue::Fraction(Ratio { num: t.minute, den: 60 }),
        UnitType::MinuteFloatMixed => UnitValue::Fraction(
            Ratio { num: t.minute * 60 + t.second, den: 3600 },
        ),
        UnitType::Hour24Int => UnitValue::Int(t.hour as i32),
        UnitType::Hour24Float => UnitValue::Fraction(Ratio { num: t.hour, den: 24 }),
        UnitType::Hour24FloatMixed => UnitValue::Fraction(
            Ratio { num: t.hour * 3600 + t.minute * 60 + t.second, den: 86400 },
        ),
        UnitType::Hour12Int => UnitValue::Int(hour12(t.hour) as i32),
        UnitType::Hour12Float => UnitValue::Fraction(Ratio { num: hour12(t.hour), den: 12 }),
        UnitType::Hour12FloatMixed => UnitValue::Fraction(
            Ratio { num: hour12(t.hour) * 3600 + t.minute * 60 + t.second, den: 43200 },
        ),
        UnitType::IsPm => UnitValue::Bool(t.hour >= 12),
        UnitType::DayInt => UnitValue::Int(t.day as i32),
        UnitType::DayFloat => UnitValue::Fraction(
            Ratio { num: t.day, den: days_in_month(t.year, t.month) },
        ),
        UnitType::DayFloatMixed => {
            let dim = days_in_month(t.year, t.month);
            UnitValue::Fraction(
                Ratio {
                    num: (t.day - 1) * 86400 + t.hour * 3600 + t.minute * 60 + t.second,
                    den: dim * 86400,
                },
            )
        },
        UnitType::DayOfWeekInt => UnitValue::Int(t.weekday as i32),
        UnitType::DayOfWeekFloat => UnitValue::Fraction(Ratio { num: t.weekday, den: 7 }),
        UnitType::DayOfWeekFloatMixed => UnitValue::Fraction(
            Ratio {
                num: t.weekday * 86400 + t.hour * 3600 + t.minute * 60 + t.second,
                den: 604800,
            },
        ),
        UnitType::MonthInt => UnitValue::Int(t.month as i32),
        UnitType::MonthFloat => UnitValue::Fraction(Ratio { num: t.month, den: 12 }),
        UnitType::MonthFloatMixed => {
            let dim = days_in_month(t.year, t.month);
            let m1 = t.month - 1;
            proof {
                assert(m1 * dim <= 341) by (nonlinear_arith)
                    requires
                        m1 <= 11,
                        28 <= dim <= 31,
                ;
            }
            UnitValue::Fraction(
                Ratio {
                    num: m1 * dim * 86400 + (t.day - 1) * 86400 + t.hour * 3600
                        + t.minute * 60 + t.second,
                    den: 12 * dim * 86400,
                },
            )
        },
        UnitType::Year => UnitValue::Int(t.year),
        UnitType::Year0 => UnitValue::Int(year_digit(t.year, 0) as i32),
        UnitType::Year1 => UnitValue::Int(year_digit(t.year, 1) as i32),
        UnitType::Year2 => UnitValue::Int(year_digit(t.year, 2) as i32),
        UnitType::Year3 => UnitValue::Int(year_digit(t.year, 3) as i32),
        UnitType::UpdateHandler => UnitValue::Nil,
    }
}

/// While the MINUTE bit is unset, every minute-cadence unit type
/// transcodes to "no value", whatever the HOUR and DAY bits hold.
pub proof fn lemma_minute_gate(u: UnitType, t: Timestamp, f: SyncFlag)
    requires
        is_minute_unit(u),
        !f.minute,
    ensures
        spec_transcode(u, t, f) == UnitValue::Nil,
{
}

/// The 12-hour dial shows both hour 0 and hour 12 as 12, and hour 13 as 1.
pub proof fn lemma_hour12_display(t: Timestamp, f: SyncFlag)
    requires
        t.wf(),
        f.hour,
    ensures
        t.hour == 0 ==> spec_transcode(UnitType::Hour12Int, t, f) == UnitValue::Int(12),
        t.hour == 12 ==> spec_transcode(UnitType::Hour12Int, t, f) == UnitValue::Int(12),
        t.hour == 13 ==> spec_transcode(UnitType::Hour12Int, t, f) == UnitValue::Int(1),
{
}

/// The is-PM value is true exactly of the hours from 12 on.
pub proof fn lemma_is_pm(t: Timestamp, f: SyncFlag)
    requires
        t.wf(),
        f.hour,
    ensures
        spec_transcode(UnitType::IsPm, t, f) == UnitValue::Bool(t.hour >= 12),
{
}

/// The four year-digit transcodings of a four-digit year, concatenated as
/// decimal digits, reproduce the year.
pub proof fn lemma_year_digits_concat(t: Timestamp, f: SyncFlag)
    requires
        t.wf(),
        f.day,
        1000 <= t.year <= 9999,
    ensures
        ({
            let y = t.year as int;
            &&& spec_transcode(UnitType::Year0, t, f) == UnitValue::Int((y / 1000 % 10) as i32)
            &&& spec_transcode(UnitType::Year1, t, f) == UnitValue::Int((y / 100 % 10) as i32)
            &&& spec_transcode(UnitType::Year2, t, f) == UnitValue::Int((y / 10 % 10) as i32)
            &&& spec_transcode(UnitType::Year3, t, f) == UnitValue::Int((y % 10) as i32)
            &&& y / 1000 % 10 * 1000 + y / 100 % 10 * 100 + y / 10 % 10 * 10 + y % 10 == y
        }),
{
    crate::time::lemma_year_digits_reconstruct(t.year as int);
}

/// The hour on a 12-hour dial, with the 12-o'clock edge mapped to 12.
fn hour12(hour: u32) -> (r: u32)
    requires
        hour < 24,
    ensures
        r == spec_hour12(hour as int),
        1 <= r <= 12,
{
    if hour % 12 == 0 {
        12
    } else {
        hour % 12
    }
}

} // verus!
