use futures_glib::utils::{millis, utf8_str};
use futures_glib::{deadline, ready_time, Deadline};

#[test]
fn millis_rounds_up() {
    assert_eq!(millis(0, 0), 0);
    assert_eq!(millis(0, 1), 1);
    assert_eq!(millis(0, 1_000_000), 1);
    assert_eq!(millis(0, 1_000_001), 2);
    assert_eq!(millis(2, 500_000_000), 2500);
    assert_eq!(millis(1, 999_999_999), 2000);
}

#[test]
fn millis_saturates() {
    assert_eq!(millis(u64::MAX, 0), u64::MAX);
    assert_eq!(millis(u64::MAX / 1000, 999_999_999), u64::MAX);
}

#[test]
fn ready_time_values() {
    assert_eq!(ready_time(Deadline::Never, 123), -1);
    assert_eq!(ready_time(Deadline::Passed, 123), 0);
    assert_eq!(ready_time(Deadline::In(5), 1_000), 6_000);
    assert_eq!(ready_time(Deadline::In(0), 77), 77);
}

#[test]
fn deadline_choices() {
    assert_eq!(deadline(None), Deadline::Never);
    assert_eq!(deadline(Some(None)), Deadline::Passed);
    assert_eq!(deadline(Some(Some((0, 0)))), Deadline::Passed);
    assert_eq!(deadline(Some(Some((0, 1)))), Deadline::In(1));
    assert_eq!(deadline(Some(Some((3, 2_000_000)))), Deadline::In(3002));
}

#[test]
fn utf8_text() {
    assert_eq!(utf8_str(b"UTF-8"), Some("UTF-8"));
    assert_eq!(utf8_str(&[0xc3]), None);
}
