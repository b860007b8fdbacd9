use termplay::clock::{format_clock, push_clock};

#[test]
fn sixty_five_seconds() {
    assert_eq!(format_clock(65), "01:05");
}

#[test]
fn one_hour_two_minutes_five_seconds() {
    assert_eq!(format_clock(3725), "01:02:05");
}

#[test]
fn fifty_nine_seconds() {
    assert_eq!(format_clock(59), "00:59");
}

#[test]
fn zero_seconds() {
    assert_eq!(format_clock(0), "00:00");
}

#[test]
fn minute_boundaries() {
    assert_eq!(format_clock(9), "00:09");
    assert_eq!(format_clock(10), "00:10");
    assert_eq!(format_clock(60), "01:00");
    assert_eq!(format_clock(600), "10:00");
}

#[test]
fn hour_appears_once_it_is_not_zero() {
    assert_eq!(format_clock(3599), "59:59");
    assert_eq!(format_clock(3600), "01:00:00");
    assert_eq!(format_clock(86399), "23:59:59");
    assert_eq!(format_clock(36000), "10:00:00");
}

#[test]
fn hours_grow_beyond_two_digits() {
    assert_eq!(format_clock(360000), "100:00:00");
    assert_eq!(format_clock(3600 * 12345 + 61), "12345:01:01");
}

#[test]
fn largest_number_of_seconds() {
    assert_eq!(format_clock(u64::MAX), "5124095576030431:00:15");
}

#[test]
fn push_clock_appends() {
    let mut text = String::from("at ");
    push_clock(&mut text, 125);
    assert_eq!(text, "at 02:05");
    push_clock(&mut text, 7322);
    assert_eq!(text, "at 02:0502:02:02");
}

#[test]
fn agrees_with_the_standard_formatter() {
    for secs in [0u64, 1, 59, 60, 61, 599, 3599, 3600, 3661, 35999, 36000, 359999, 360000] {
        let hh = secs / 3600;
        let mm = (secs / 60) % 60;
        let ss = secs % 60;
        let expected = if hh > 0 {
            format!("{:02}:{:02}:{:02}", hh, mm, ss)
        } else {
            format!("{:02}:{:02}", mm, ss)
        };
        assert_eq!(format_clock(secs), expected);
    }
}
