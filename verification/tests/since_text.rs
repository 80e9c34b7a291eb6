use asteroids::sice_string::SinceString;
use asteroids::since_string::SinceString as MenuSinceString;

fn split(seconds: u32, minutes: u32, hours: u32, days: u32, months: u32, years: u32) -> SinceString {
    SinceString { seconds, minutes, hours, days, months, years }
}

fn menu_split(
    seconds: u32,
    minutes: u32,
    hours: u32,
    days: u32,
    months: u32,
    years: u32,
) -> MenuSinceString {
    MenuSinceString { seconds, minutes, hours, days, months, years }
}

#[test]
fn zero_split_is_just_now() {
    let s = split(0, 0, 0, 0, 0, 0);
    assert!(s.is_zero());
    assert_eq!(s.to_string(), "just now");
    let m = menu_split(0, 0, 0, 0, 0, 0);
    assert!(m.is_zero());
    assert_eq!(m.to_string(), "just now");
}

#[test]
fn is_zero_sees_any_field() {
    assert!(!split(1, 0, 0, 0, 0, 0).is_zero());
    assert!(!split(0, 0, 0, 0, 0, 7).is_zero());
    assert!(!menu_split(0, 0, 3, 0, 0, 0).is_zero());
}

#[test]
fn from_seconds_splits_units() {
    let s = SinceString::from_seconds(3_725);
    assert_eq!((s.seconds, s.minutes, s.hours, s.days, s.months, s.years), (5, 2, 1, 0, 0, 0));
    let s = SinceString::from_seconds(90_061);
    assert_eq!((s.seconds, s.minutes, s.hours, s.days, s.months, s.years), (1, 1, 1, 1, 0, 0));
}

#[test]
fn month_field_repeats_years() {
    // 400 days: 1 year of 360 days, 1 month and 10 days; the month field holds the year count.
    let s = SinceString::from_seconds(400 * 86_400);
    assert_eq!((s.days, s.months, s.years), (10, 1, 1));
    // 40 days: one whole month is dropped.
    let s = SinceString::from_seconds(40 * 86_400);
    assert_eq!((s.days, s.months, s.years), (10, 0, 0));
}

#[test]
fn thirty_days_reads_just_now() {
    let s = SinceString::from_seconds(30 * 86_400);
    assert!(s.is_zero());
    assert_eq!(s.to_string(), "just now");
}

#[test]
fn negative_seconds_wrap() {
    let s = SinceString::from_seconds(-5);
    assert_eq!(s.seconds, u32::MAX - 4);
    assert_eq!((s.minutes, s.hours, s.days, s.months, s.years), (0, 0, 0, 0, 0));
    let s = SinceString::from_seconds(-3_725);
    assert_eq!(s.seconds, (-5i32) as u32);
    assert_eq!(s.minutes, (-2i32) as u32);
    assert_eq!(s.hours, (-1i32) as u32);
}

#[test]
fn from_delta_uses_whole_seconds() {
    let s = SinceString::from_delta(&chrono::TimeDelta::seconds(3_725));
    assert_eq!((s.seconds, s.minutes, s.hours), (5, 2, 1));
    let s = SinceString::from_delta(&chrono::TimeDelta::milliseconds(61_999));
    assert_eq!((s.seconds, s.minutes), (1, 1));
    let m = MenuSinceString::from_delta(&chrono::TimeDelta::seconds(86_400 * 3 + 7_200));
    assert_eq!(m.to_string(), "3 days, 2 hours ago");
}

#[test]
fn seconds_shown_below_twenty_minutes() {
    assert_eq!(split(5, 2, 0, 0, 0, 0).to_string(), "2 minutes, 5 seconds ago");
    assert_eq!(split(5, 25, 0, 0, 0, 0).to_string(), "25 minutes ago");
    assert_eq!(split(5, 2, 1, 0, 0, 0).to_string(), "1 hour, 2 minutes ago");
    assert_eq!(split(1, 0, 0, 0, 0, 0).to_string(), "1 second ago");
    assert_eq!(split(59, 19, 0, 0, 0, 0).to_string(), "19 minutes, 59 seconds ago");
}

#[test]
fn singular_and_plural() {
    assert_eq!(split(0, 1, 0, 1, 1, 0).to_string(), "1 month, 1 day, 1 minute ago");
    assert_eq!(split(0, 0, 2, 3, 0, 0).to_string(), "3 days, 2 hours ago");
    assert_eq!(split(0, 0, 0, 0, 0, 1).to_string(), "1 year ago");
    assert_eq!(split(0, 0, 0, 0, 0, 12).to_string(), "12 years ago");
}

#[test]
fn years_hide_small_units() {
    assert_eq!(split(9, 9, 9, 9, 2, 2).to_string(), "2 years, 2 months, 9 days ago");
    assert_eq!(menu_split(9, 9, 9, 9, 2, 2).to_string(), "2 years, 2 months, 9 days ago");
}

#[test]
fn months_hide_small_units_only_in_menu_variant() {
    assert_eq!(split(9, 9, 9, 0, 3, 0).to_string(), "3 months, 9 hours, 9 minutes ago");
    assert_eq!(menu_split(9, 9, 9, 0, 3, 0).to_string(), "3 months ago");
}

#[test]
fn large_counts_in_decimal() {
    assert_eq!(split(0, 0, 0, 0, 0, 1_234_567).to_string(), "1234567 years ago");
    assert_eq!(split(10, 0, 0, 0, 0, 0).to_string(), "10 seconds ago");
    assert_eq!(split(0, 0, 0, 0, 0, 4_000_000_000).to_string(), "4000000000 years ago");
}

#[test]
fn whole_year_split_and_text() {
    let s = SinceString::from_seconds(360 * 86_400 + 5 * 86_400);
    assert_eq!(s.to_string(), "1 year, 1 month, 5 days ago");
    let m = MenuSinceString::from_seconds(360 * 86_400);
    assert_eq!(m.to_string(), "1 year, 1 month ago");
}

#[test]
fn negative_whole_month_reads_just_now() {
    let s = SinceString::from_seconds(-30 * 86_400);
    assert!(s.is_zero());
    let m = MenuSinceString::from_seconds(-360 * 86_400);
    assert_eq!(m.years, u32::MAX);
    assert_eq!(m.months, u32::MAX);
}

#[test]
fn zero_split_only_for_whole_months_below_a_year() {
    for days in 0..400i64 {
        let s = SinceString::from_seconds(days * 86_400);
        let all_zero = s.seconds == 0 && s.minutes == 0 && s.hours == 0 && s.days == 0 && s.months == 0 && s.years == 0;
        assert_eq!(all_zero, days % 30 == 0 && days < 360, "{} days", days);
    }
    let s = SinceString::from_seconds(86_400 * 30 + 1);
    assert!(!s.is_zero());
}

#[test]
fn longest_delta_is_describable() {
    let s = SinceString::from_delta(&chrono::TimeDelta::MAX);
    assert_eq!(s.years, 296_533_308);
    assert!(s.to_string().starts_with("296533308 years, 296533308 months"));
    assert!(s.to_string().ends_with(" ago"));
}

#[test]
fn from_trait_matches_from_delta() {
    let s: SinceString = chrono::TimeDelta::seconds(7_384).into();
    assert_eq!((s.seconds, s.minutes, s.hours), (4, 3, 2));
    let m: MenuSinceString = chrono::TimeDelta::days(45).into();
    assert_eq!(m.to_string(), "15 days ago");
}

#[test]
fn delta_beyond_documented_range() {
    let long = chrono::TimeDelta::MAX * 2;
    let s = SinceString::from_delta(&long);
    assert_eq!(s.years, 593_066_617);
    assert_eq!(s.months, 593_066_617);
}
