use otel_worker::commands::util::{parse_rfc3339_from_str, timestamp_or_context, Timestamp};

#[test]
fn a_time_in_utc_is_read() {
    let time = parse_rfc3339_from_str("2024-11-05T01:02:03Z").unwrap();
    assert_eq!(time, Timestamp { unix_nanos: 1730768523000000000, offset_seconds: 0 });
}

#[test]
fn an_offset_is_kept_beside_the_point_in_time() {
    let time = parse_rfc3339_from_str("1970-01-01T01:00:00.000000005+01:30").unwrap();
    assert_eq!(time, Timestamp { unix_nanos: -1799999999995, offset_seconds: 5400 });
}

#[test]
fn another_notation_is_refused_in_the_words_of_the_parser() {
    for text in ["", "2024-11-05", "2024-13-05T01:02:03Z", "2024-11-05 01:02:03"] {
        let error = parse_rfc3339_from_str(text).unwrap_err();
        let format = &time::format_description::well_known::Rfc3339;
        let cause = time::OffsetDateTime::parse(text, format).unwrap_err();
        assert_eq!(error.context, "failed to parse rfc3339 timestamp");
        assert_eq!(error.cause, cause.to_string());
    }
}

#[test]
fn what_was_attempted_stands_beside_the_cause() {
    let error = timestamp_or_context(Err("broken".to_string())).unwrap_err();
    assert_eq!(error.context, "failed to parse rfc3339 timestamp");
    assert_eq!(error.cause, "broken");
    let time = Timestamp { unix_nanos: 7, offset_seconds: -60 };
    assert_eq!(timestamp_or_context(Ok(time)).unwrap(), time);
}
