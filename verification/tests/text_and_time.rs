use cfetch::clock::{local_time, OFFSET_SECONDS};
use cfetch::printers::difficulty;
use cfetch::text::decimal_string;
use cfetch::Problem;

fn problem(index: &str, rating: Option<i32>) -> Problem {
    Problem { name: "Two Arrays".to_string(), index: index.to_string(), rating }
}

#[test]
fn decimal_of_zero_is_one_digit() {
    assert_eq!(decimal_string(0), "0");
}

#[test]
fn decimal_of_single_digits() {
    for v in 0..10 {
        assert_eq!(decimal_string(v), format!("{}", v));
    }
}

#[test]
fn decimal_has_no_separators() {
    assert_eq!(decimal_string(1500), "1500");
    assert_eq!(decimal_string(1234567), "1234567");
    assert_eq!(decimal_string(1000000000), "1000000000");
}

#[test]
fn decimal_of_negative_numbers() {
    assert_eq!(decimal_string(-1), "-1");
    assert_eq!(decimal_string(-10), "-10");
    assert_eq!(decimal_string(-2048), "-2048");
}

#[test]
fn decimal_at_the_ends_of_the_range() {
    assert_eq!(decimal_string(i32::MAX), "2147483647");
    assert_eq!(decimal_string(i32::MIN), "-2147483648");
}

#[test]
fn decimal_agrees_with_std_on_many_values() {
    let mut v: i64 = i64::from(i32::MIN);
    while v <= i64::from(i32::MAX) {
        let n = v as i32;
        assert_eq!(decimal_string(n), n.to_string());
        v += 7_919_113;
    }
    for n in -1100..1100 {
        assert_eq!(decimal_string(n), n.to_string());
    }
}

#[test]
fn offset_is_five_and_a_half_hours() {
    assert_eq!(OFFSET_SECONDS, 5 * 3600 + 30 * 60);
}

#[test]
fn epoch_is_half_past_five() {
    assert_eq!(local_time(0), "01-01-1970 05:30");
}

#[test]
fn time_just_before_the_epoch() {
    assert_eq!(local_time(-1), "01-01-1970 05:29");
    assert_eq!(local_time(-19_800), "01-01-1970 00:00");
    assert_eq!(local_time(-19_801), "31-12-1969 23:59");
}

#[test]
fn time_crosses_midnight_into_the_next_day() {
    // 2015-05-15 00:00:00 UTC
    assert_eq!(local_time(1_431_648_000), "15-05-2015 05:30");
    // 2015-05-15 18:30:00 UTC is midnight of the next day at the offset
    assert_eq!(local_time(1_431_648_000 + 18 * 3600 + 30 * 60), "16-05-2015 00:00");
    // one minute earlier
    assert_eq!(local_time(1_431_648_000 + 18 * 3600 + 29 * 60), "15-05-2015 23:59");
}

#[test]
fn time_on_a_leap_day() {
    // 2024-02-29 12:00:00 UTC
    assert_eq!(local_time(1_709_208_000), "29-02-2024 17:30");
}

#[test]
fn time_at_the_ends_of_the_range() {
    assert_eq!(local_time(i32::MAX), "19-01-2038 08:44");
    assert_eq!(local_time(i32::MIN), "14-12-1901 02:15");
}

#[test]
fn time_differs_from_its_input() {
    assert_ne!(local_time(1_700_000_000), "1700000000");
    assert_eq!(local_time(1_700_000_000), "15-11-2023 03:43");
}

#[test]
fn difficulty_with_a_rating() {
    assert_eq!(difficulty(&problem("B", Some(1500))), "B (1500)");
}

#[test]
fn difficulty_without_a_rating() {
    assert_eq!(difficulty(&problem("C", None)), "C: (NA)");
}

#[test]
fn difficulty_keeps_a_longer_index() {
    assert_eq!(difficulty(&problem("B2", Some(800))), "B2 (800)");
    assert_eq!(difficulty(&problem("F1", None)), "F1: (NA)");
}

#[test]
fn difficulty_of_an_empty_index() {
    assert_eq!(difficulty(&problem("", Some(0))), " (0)");
    assert_eq!(difficulty(&problem("", None)), ": (NA)");
}
