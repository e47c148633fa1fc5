use ibooks_highlights::timestamp::{date_time_of, normalize, DateTime};

fn text(t: i64) -> Option<String> {
    normalize(t)
}

#[test]
fn epoch_start_is_first_second_of_2001() {
    assert_eq!(text(0), Some("2001-01-01T00:00:00".to_string()));
}

#[test]
fn last_second_of_first_day() {
    assert_eq!(text(86399), Some("2001-01-01T23:59:59".to_string()));
}

#[test]
fn one_second_before_epoch() {
    assert_eq!(text(-1), Some("2000-12-31T23:59:59".to_string()));
}

#[test]
fn leap_day_2004() {
    assert_eq!(text(99705600), Some("2004-02-29T00:00:00".to_string()));
}

#[test]
fn ordinary_recent_instant() {
    assert_eq!(text(700000000), Some("2023-03-08T20:26:40".to_string()));
}

#[test]
fn earliest_and_latest_four_digit_years() {
    assert_eq!(text(-63113904000), Some("0001-01-01T00:00:00".to_string()));
    assert_eq!(text(252423993599), Some("9999-12-31T23:59:59".to_string()));
}

#[test]
fn instants_without_four_digit_year_are_absent() {
    assert_eq!(text(-63113904001), None);
    assert_eq!(text(252423993600), None);
    assert_eq!(text(i64::MIN), None);
    assert_eq!(text(i64::MAX), None);
}

#[test]
fn date_time_fields_of_leap_day() {
    let dt = date_time_of(99705600 + 3661).unwrap();
    assert_eq!(
        dt,
        DateTime { year: 2004, month: 2, day: 29, hour: 1, minute: 1, second: 1 }
    );
    assert_eq!(dt.to_text(), "2004-02-29T01:01:01");
}
