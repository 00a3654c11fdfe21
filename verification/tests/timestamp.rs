use timedumper::{checked_timestamp, timestamp, HTTP_DATE_END};

#[test]
fn the_epoch_is_a_thursday() {
    assert_eq!(timestamp(0), "Thu, 01 Jan 1970 00:00:00 GMT");
}

#[test]
fn known_instants_are_written_as_http_dates() {
    assert_eq!(timestamp(784111777), "Sun, 06 Nov 1994 08:49:37 GMT");
    assert_eq!(timestamp(1475419451), "Sun, 02 Oct 2016 14:44:11 GMT");
    assert_eq!(timestamp(951782400), "Tue, 29 Feb 2000 00:00:00 GMT");
}

#[test]
fn the_same_instant_gives_the_same_text() {
    let first = timestamp(1431696861);
    let second = timestamp(1431696861);
    assert_eq!(first, second);
    assert_eq!(first, "Fri, 15 May 2015 13:34:21 GMT");
}

#[test]
fn seconds_are_told_apart() {
    assert_ne!(timestamp(1431696861), timestamp(1431696862));
    assert_eq!(timestamp(59), "Thu, 01 Jan 1970 00:00:59 GMT");
    assert_eq!(timestamp(60), "Thu, 01 Jan 1970 00:01:00 GMT");
}

#[test]
fn the_text_does_not_follow_the_time_zone_of_the_process() {
    let before = timestamp(86399);
    assert_eq!(before, "Thu, 01 Jan 1970 23:59:59 GMT");
    assert!(before.ends_with(" GMT"));
    assert_eq!(before.len(), 29);
}

#[test]
fn the_last_second_of_the_year_9999_is_written() {
    assert_eq!(timestamp(HTTP_DATE_END - 1), "Fri, 31 Dec 9999 23:59:59 GMT");
    assert_eq!(
        checked_timestamp(HTTP_DATE_END - 1),
        Some(String::from("Fri, 31 Dec 9999 23:59:59 GMT"))
    );
}

#[test]
fn the_year_10000_is_not_written() {
    assert_eq!(HTTP_DATE_END, 253402300800);
    assert_eq!(checked_timestamp(HTTP_DATE_END), None);
    assert_eq!(checked_timestamp(u64::MAX), None);
}

#[test]
fn checked_and_unchecked_agree() {
    assert_eq!(checked_timestamp(0), Some(timestamp(0)));
    assert_eq!(checked_timestamp(784111777), Some(timestamp(784111777)));
}
