use twenty_five_and_five::clock::{clock_full_text, clock_short_text};

#[test]
fn one_hour_one_minute_one_second() {
    assert_eq!(clock_full_text(3661), "01:01:01");
    assert_eq!(clock_short_text(3661), "01:01");
}

#[test]
fn zero_seconds() {
    assert_eq!(clock_full_text(0), "00:00:00");
    assert_eq!(clock_short_text(0), "00:00");
}

#[test]
fn full_work_duration() {
    assert_eq!(clock_full_text(1500), "00:25:00");
    assert_eq!(clock_short_text(1500), "25:00");
}

#[test]
fn field_boundaries() {
    assert_eq!(clock_full_text(59), "00:00:59");
    assert_eq!(clock_full_text(60), "00:01:00");
    assert_eq!(clock_full_text(3600), "01:00:00");
    assert_eq!(clock_short_text(3600), "00:00");
    assert_eq!(clock_short_text(3599), "59:59");
}

#[test]
fn hours_beyond_two_digits_keep_all_their_digits() {
    assert_eq!(clock_full_text(360_061), "100:01:01");
    assert_eq!(clock_full_text(1_000_000), "277:46:40");
}
