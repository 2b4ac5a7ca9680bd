use osc_clock::time::{days_in_month, year_digit, Timestamp};
use osc_clock::unit::{handle_unit, Ratio, SyncFlag, UnitType, UnitValue};

fn ts(year: i32, month: u32, day: u32, hour: u32, minute: u32, second: u32, weekday: u32) -> Timestamp {
    Timestamp::new(year, month, day, hour, minute, second, weekday)
}

fn all() -> SyncFlag {
    SyncFlag::all()
}

#[test]
fn hour12_maps_midnight_and_noon_to_twelve() {
    let t0 = ts(2026, 10, 12, 0, 5, 6, 0);
    let t12 = ts(2026, 10, 12, 12, 5, 6, 0);
    let t13 = ts(2026, 10, 12, 13, 5, 6, 0);
    assert_eq!(handle_unit(UnitType::Hour12Int, &t0, all()), UnitValue::Int(12));
    assert_eq!(handle_unit(UnitType::Hour12Int, &t12, all()), UnitValue::Int(12));
    assert_eq!(handle_unit(UnitType::Hour12Int, &t13, all()), UnitValue::Int(1));
}

#[test]
fn is_pm_is_true_exactly_from_noon_on() {
    for hour in 0..24 {
        let t = ts(2026, 10, 12, hour, 0, 0, 0);
        assert_eq!(
            handle_unit(UnitType::IsPm, &t, all()),
            UnitValue::Bool(hour >= 12)
        );
    }
}

#[test]
fn year_digits_spell_out_a_four_digit_year() {
    let t = ts(2026, 10, 12, 1, 2, 3, 0);
    assert_eq!(handle_unit(UnitType::Year0, &t, all()), UnitValue::Int(2));
    assert_eq!(handle_unit(UnitType::Year1, &t, all()), UnitValue::Int(0));
    assert_eq!(handle_unit(UnitType::Year2, &t, all()), UnitValue::Int(2));
    assert_eq!(handle_unit(UnitType::Year3, &t, all()), UnitValue::Int(6));
}

#[test]
fn short_year_digits_fall_back_to_zero() {
    let t = ts(987, 3, 4, 1, 2, 3, 0);
    assert_eq!(handle_unit(UnitType::Year0, &t, all()), UnitValue::Int(9));
    assert_eq!(handle_unit(UnitType::Year1, &t, all()), UnitValue::Int(8));
    assert_eq!(handle_unit(UnitType::Year2, &t, all()), UnitValue::Int(7));
    assert_eq!(handle_unit(UnitType::Year3, &t, all()), UnitValue::Int(0));
}

#[test]
fn negative_year_sign_reads_as_zero_digit() {
    assert_eq!(year_digit(-123, 0), 0);
    assert_eq!(year_digit(-123, 1), 1);
    assert_eq!(year_digit(-123, 2), 2);
    assert_eq!(year_digit(-123, 3), 3);
}

#[test]
fn minute_units_suppressed_without_minute_bit() {
    let t = ts(2026, 10, 12, 13, 34, 56, 0);
    let f = SyncFlag { minute: false, hour: true, day: true };
    assert_eq!(handle_unit(UnitType::MinuteInt, &t, f), UnitValue::Nil);
    assert_eq!(handle_unit(UnitType::MinuteFloat, &t, f), UnitValue::Nil);
    assert_eq!(handle_unit(UnitType::MinuteFloatMixed, &t, f), UnitValue::Nil);
}

#[test]
fn hour_units_suppressed_without_hour_bit() {
    let t = ts(2026, 10, 12, 13, 34, 56, 0);
    let f = SyncFlag { minute: true, hour: false, day: true };
    assert_eq!(handle_unit(UnitType::Hour24Int, &t, f), UnitValue::Nil);
    assert_eq!(handle_unit(UnitType::Hour12FloatMixed, &t, f), UnitValue::Nil);
    assert_eq!(handle_unit(UnitType::IsPm, &t, f), UnitValue::Nil);
}

#[test]
fn day_units_suppressed_without_day_bit() {
    let t = ts(2026, 10, 12, 13, 34, 56, 0);
    let f = SyncFlag { minute: true, hour: true, day: false };
    assert_eq!(handle_unit(UnitType::DayInt, &t, f), UnitValue::Nil);
    assert_eq!(handle_unit(UnitType::MonthFloatMixed, &t, f), UnitValue::Nil);
    assert_eq!(handle_unit(UnitType::Year2, &t, f), UnitValue::Nil);
    assert_eq!(handle_unit(UnitType::DayOfWeekInt, &t, f), UnitValue::Nil);
}

#[test]
fn second_units_never_suppressed() {
    let t = ts(2026, 10, 12, 13, 34, 56, 0);
    let f = SyncFlag::none();
    assert_eq!(handle_unit(UnitType::SecondInt, &t, f), UnitValue::Int(56));
    assert_eq!(
        handle_unit(UnitType::SecondFloat, &t, f),
        UnitValue::Fraction(Ratio { num: 56, den: 60 })
    );
}

#[test]
fn handler_sentinel_never_produces_a_value() {
    let t = ts(2026, 10, 12, 13, 34, 56, 0);
    assert_eq!(handle_unit(UnitType::UpdateHandler, &t, all()), UnitValue::Nil);
    assert_eq!(handle_unit(UnitType::UpdateHandler, &t, SyncFlag::none()), UnitValue::Nil);
}

#[test]
fn mixed_minute_matches_the_float_formula() {
    let t = ts(2026, 10, 12, 13, 34, 56, 0);
    let got = handle_unit(UnitType::MinuteFloatMixed, &t, all());
    assert_eq!(got, UnitValue::Fraction(Ratio { num: 34 * 60 + 56, den: 3600 }));
    if let UnitValue::Fraction(r) = got {
        let mine = r.num as f32 / r.den as f32;
        let direct = (34.0_f32 + 56.0_f32 / 60.0) / 60.0;
        assert!((mine - direct).abs() < 1e-6);
    } else {
        panic!("expected a fraction");
    }
}

#[test]
fn mixed_hour24_matches_the_float_formula() {
    let t = ts(2026, 10, 12, 13, 34, 56, 0);
    let got = handle_unit(UnitType::Hour24FloatMixed, &t, all());
    assert_eq!(
        got,
        UnitValue::Fraction(Ratio { num: 13 * 3600 + 34 * 60 + 56, den: 86400 })
    );
}

#[test]
fn mixed_hour12_uses_the_dial_hour() {
    let t = ts(2026, 10, 12, 0, 30, 0, 0);
    assert_eq!(
        handle_unit(UnitType::Hour12FloatMixed, &t, all()),
        UnitValue::Fraction(Ratio { num: 12 * 3600 + 30 * 60, den: 43200 })
    );
}

#[test]
fn day_fraction_uses_days_of_the_current_month() {
    let t = ts(2026, 10, 12, 0, 0, 0, 0);
    assert_eq!(
        handle_unit(UnitType::DayFloat, &t, all()),
        UnitValue::Fraction(Ratio { num: 12, den: 31 })
    );
}

#[test]
fn leap_february_has_twenty_nine_days() {
    assert_eq!(days_in_month(2024, 2), 29);
    assert_eq!(days_in_month(2023, 2), 28);
    assert_eq!(days_in_month(1900, 2), 28);
    assert_eq!(days_in_month(2000, 2), 29);
    let t = ts(2024, 2, 29, 0, 0, 0, 3);
    assert_eq!(
        handle_unit(UnitType::DayFloat, &t, all()),
        UnitValue::Fraction(Ratio { num: 29, den: 29 })
    );
}

#[test]
fn december_rolls_over_to_january() {
    assert_eq!(days_in_month(2026, 12), 31);
    let t = ts(2026, 12, 31, 23, 59, 59, 3);
    let day_secs = 30 * 86400 + 23 * 3600 + 59 * 60 + 59;
    assert_eq!(
        handle_unit(UnitType::DayFloatMixed, &t, all()),
        UnitValue::Fraction(Ratio { num: day_secs, den: 31 * 86400 })
    );
    assert_eq!(
        handle_unit(UnitType::MonthFloatMixed, &t, all()),
        UnitValue::Fraction(Ratio { num: 11 * 31 * 86400 + day_secs, den: 12 * 31 * 86400 })
    );
}

#[test]
fn day_of_week_counts_from_monday() {
    let t = ts(2026, 10, 12, 6, 0, 0, 0);
    assert_eq!(handle_unit(UnitType::DayOfWeekInt, &t, all()), UnitValue::Int(0));
    assert_eq!(
        handle_unit(UnitType::DayOfWeekFloat, &t, all()),
        UnitValue::Fraction(Ratio { num: 0, den: 7 })
    );
    let sunday = ts(2026, 10, 18, 6, 30, 15, 6);
    assert_eq!(
        handle_unit(UnitType::DayOfWeekFloatMixed, &sunday, all()),
        UnitValue::Fraction(Ratio { num: 6 * 86400 + 6 * 3600 + 30 * 60 + 15, den: 604800 })
    );
}

#[test]
fn integer_units_return_calendar_fields() {
    let t = ts(2026, 10, 12, 13, 34, 56, 0);
    assert_eq!(handle_unit(UnitType::MinuteInt, &t, all()), UnitValue::Int(34));
    assert_eq!(handle_unit(UnitType::Hour24Int, &t, all()), UnitValue::Int(13));
    assert_eq!(handle_unit(UnitType::DayInt, &t, all()), UnitValue::Int(12));
    assert_eq!(handle_unit(UnitType::MonthInt, &t, all()), UnitValue::Int(10));
    assert_eq!(handle_unit(UnitType::Year, &t, all()), UnitValue::Int(2026));
    assert_eq!(
        handle_unit(UnitType::MonthFloat, &t, all()),
        UnitValue::Fraction(Ratio { num: 10, den: 12 })
    );
}

#[test]
fn the_clock_reads_a_valid_timestamp() {
    let t = osc_clock::time::now_timestamp();
    assert!(t.month >= 1 && t.month <= 12);
    assert!(t.day >= 1 && t.day <= days_in_month(t.year, t.month));
    assert!(t.hour < 24 && t.minute < 60 && t.second < 60 && t.weekday < 7);
}
