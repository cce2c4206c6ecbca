use snappy_bridge::timestamp::{
    log_line, precision_from_env, FormatError, Rfc3339Time, Timestamp, TimestampPrecision,
};

fn looks_like_rfc3339(text: &str, digits: usize) -> bool {
    let bytes = text.as_bytes();
    let expected_len = if digits == 0 { 20 } else { 21 + digits };
    if bytes.len() != expected_len {
        return false;
    }
    let shape = b"dddd-dd-ddTdd:dd:dd";
    for (i, s) in shape.iter().enumerate() {
        let ok = if *s == b'd' { bytes[i].is_ascii_digit() } else { bytes[i] == *s };
        if !ok {
            return false;
        }
    }
    if digits > 0 {
        if bytes[19] != b'.' {
            return false;
        }
        if !bytes[20..20 + digits].iter().all(|b| b.is_ascii_digit()) {
            return false;
        }
    }
    bytes[bytes.len() - 1] == b'Z'
}

#[test]
fn test_epoch_formats() {
    let mut ts = Timestamp::at(0, 0, TimestampPrecision::Nanos);

    assert_eq!(Ok("1970-01-01T00:00:00.000000000Z".to_string()), ts.fmt());

    ts.set_precision(TimestampPrecision::Micros);
    assert_eq!(Ok("1970-01-01T00:00:00.000000Z".to_string()), ts.fmt());

    ts.set_precision(TimestampPrecision::Millis);
    assert_eq!(Ok("1970-01-01T00:00:00.000Z".to_string()), ts.fmt());

    ts.set_precision(TimestampPrecision::Seconds);
    assert_eq!(Ok("1970-01-01T00:00:00Z".to_string()), ts.fmt());
}

#[test]
fn later_instant_formats() {
    let mut ts = Timestamp::at(1_123_456_789, 123_000_000, TimestampPrecision::Micros);
    assert_eq!(ts.fmt(), Ok("2005-08-07T23:19:49.123000Z".to_string()));
    ts.set_precision(TimestampPrecision::Seconds);
    assert_eq!(ts.fmt(), Ok("2005-08-07T23:19:49Z".to_string()));
    ts.set_precision(TimestampPrecision::Millis);
    assert_eq!(ts.fmt(), Ok("2005-08-07T23:19:49.123Z".to_string()));
    ts.set_precision(TimestampPrecision::Nanos);
    assert_eq!(ts.fmt(), Ok("2005-08-07T23:19:49.123000000Z".to_string()));
}

#[test]
fn instant_before_the_epoch_formats() {
    let ts = Timestamp::at(-1, 0, TimestampPrecision::Seconds);
    assert_eq!(ts.fmt(), Ok("1969-12-31T23:59:59Z".to_string()));
}

#[test]
fn instant_outside_the_calendar_is_an_error() {
    let ts = Timestamp::at(i64::MAX, 0, TimestampPrecision::Seconds);
    assert_eq!(ts.fmt(), Err(FormatError {}));
    let ts = Timestamp::at(i64::MIN, 0, TimestampPrecision::Nanos);
    assert_eq!(ts.fmt(), Err(FormatError {}));
    let ts = Timestamp::at(0, i32::MAX, TimestampPrecision::Nanos);
    assert_eq!(ts.fmt(), Err(FormatError {}));
}

#[test]
fn now_prints_with_the_chosen_precision() {
    let cases = [
        (TimestampPrecision::Seconds, 0usize),
        (TimestampPrecision::Millis, 3),
        (TimestampPrecision::Micros, 6),
        (TimestampPrecision::Nanos, 9),
    ];
    for (precision, digits) in cases {
        let text = Timestamp::now(precision).fmt().expect("a sane clock");
        assert!(looks_like_rfc3339(&text, digits), "{}", text);
    }
}

#[test]
fn precision_digits() {
    assert_eq!(TimestampPrecision::Seconds.digits(), 0);
    assert_eq!(TimestampPrecision::Millis.digits(), 3);
    assert_eq!(TimestampPrecision::Micros.digits(), 6);
    assert_eq!(TimestampPrecision::Nanos.digits(), 9);
}

#[test]
fn precision_names() {
    assert_eq!(precision_from_env(Some("nanos")), TimestampPrecision::Nanos);
    assert_eq!(precision_from_env(Some("micros")), TimestampPrecision::Micros);
    assert_eq!(precision_from_env(Some("millis")), TimestampPrecision::Millis);
    assert_eq!(precision_from_env(Some("seconds")), TimestampPrecision::Seconds);
    assert_eq!(precision_from_env(Some("")), TimestampPrecision::Seconds);
    assert_eq!(precision_from_env(Some("Nanos")), TimestampPrecision::Seconds);
    assert_eq!(precision_from_env(Some("nanos ")), TimestampPrecision::Seconds);
    assert_eq!(precision_from_env(None), TimestampPrecision::Seconds);
}

#[test]
fn log_line_layout() {
    assert_eq!(
        log_line("1970-01-01T00:00:00Z", "INFO", "started"),
        "1970-01-01T00:00:00Z [INFO] started"
    );
    assert_eq!(log_line("", "", ""), " [] ");
    assert_eq!(log_line("t", "WARN", "a [b] c"), "t [WARN] a [b] c");
}

#[test]
fn clock_for_log_lines_shows_milliseconds() {
    let text = Rfc3339Time {}.format_time().expect("a sane clock");
    assert!(looks_like_rfc3339(&text, 3), "{}", text);
}
