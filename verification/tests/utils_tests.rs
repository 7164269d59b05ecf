use laundry_monitor::utils::{
    decimal_text_fits, noop_waker, octet, octet_checked, parse_u16, parse_u64,
};

#[test]
fn octet_reads_one_to_three_digits() {
    assert_eq!(octet("7"), 7);
    assert_eq!(octet("42"), 42);
    assert_eq!(octet("192"), 192);
    assert_eq!(octet("255"), 255);
    assert_eq!(octet("0"), 0);
}

#[test]
fn octet_counts_each_byte_from_zero_digit() {
    // A byte above '9' is not rejected: ':' counts as ten.
    assert_eq!(octet(":"), 10);
}

#[test]
fn octet_checked_matches_octet_where_defined() {
    assert_eq!(octet_checked("168"), Some(168));
    assert_eq!(octet_checked("1"), Some(1));
    assert_eq!(octet_checked("256"), None);
    assert_eq!(octet_checked("999"), None);
    assert_eq!(octet_checked("1234"), None);
    assert_eq!(octet_checked(""), None);
    assert_eq!(octet_checked("1/"), None);
}

#[test]
fn parse_u16_reads_ports() {
    assert_eq!(parse_u16("80"), 80);
    assert_eq!(parse_u16("8080"), 8080);
    assert_eq!(parse_u16("65535"), 65535);
    assert_eq!(parse_u16(""), 0);
    assert_eq!(parse_u16("007"), 7);
}

#[test]
fn parse_u64_reads_timeouts() {
    assert_eq!(parse_u64("30"), 30);
    assert_eq!(parse_u64("60"), 60);
    assert_eq!(parse_u64("18446744073709551615"), u64::MAX);
    assert_eq!(parse_u64(""), 0);
}

#[test]
fn parse_reads_back_display_text() {
    for n in [0u64, 9, 10, 99, 100, 12345, u64::MAX] {
        assert_eq!(parse_u64(&n.to_string()), n);
    }
    for n in [0u16, 1, 443, 65535] {
        assert_eq!(parse_u16(&n.to_string()), n);
    }
}

#[test]
fn octet_agrees_with_parse_u16() {
    for s in ["0", "9", "10", "99", "100", "200", "255"] {
        assert_eq!(octet(s) as u16, parse_u16(s));
    }
}

#[test]
fn decimal_text_fits_tells_parsable_text() {
    assert!(decimal_text_fits("65535", u16::MAX as u64));
    assert!(!decimal_text_fits("65536", u16::MAX as u64));
    assert!(!decimal_text_fits("1/2", u64::MAX));
    assert!(decimal_text_fits("", 0));
    assert!(decimal_text_fits("18446744073709551615", u64::MAX));
    assert!(!decimal_text_fits("18446744073709551616", u64::MAX));
    assert!(!decimal_text_fits("99999999999999999999999", u64::MAX));
    assert!(decimal_text_fits("255", 255));
    assert!(!decimal_text_fits("256", 255));
}

#[test]
fn noop_waker_wakes_nothing() {
    let w = noop_waker();
    w.wake_by_ref();
    let w2 = w.clone();
    w2.wake();
}
