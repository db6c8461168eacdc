use alarm_clock::time::{format_time, parse_time, TimeOfDay, Timestamp};

#[test]
fn format_pads_every_field() {
    assert_eq!(format_time(&TimeOfDay::new(7, 15, 42)), "07:15:42");
    assert_eq!(format_time(&TimeOfDay::new(0, 0, 0)), "00:00:00");
    assert_eq!(format_time(&TimeOfDay::new(23, 59, 59)), "23:59:59");
    assert_eq!(format_time(&TimeOfDay::new(12, 5, 9)), "12:05:09");
}

#[test]
fn parse_accepts_well_formed_times() {
    assert_eq!(parse_time("07:15:42"), Some(TimeOfDay::new(7, 15, 42)));
    assert_eq!(parse_time("00:00:00"), Some(TimeOfDay::new(0, 0, 0)));
    assert_eq!(parse_time("23:59:59"), Some(TimeOfDay::new(23, 59, 59)));
}

#[test]
fn parse_rejects_out_of_range_fields() {
    assert_eq!(parse_time("25:99:00"), None);
    assert_eq!(parse_time("24:00:00"), None);
    assert_eq!(parse_time("00:60:00"), None);
    assert_eq!(parse_time("00:00:60"), None);
}

#[test]
fn parse_rejects_malformed_text() {
    assert_eq!(parse_time(""), None);
    assert_eq!(parse_time("07:15"), None);
    assert_eq!(parse_time("7:15:42"), None);
    assert_eq!(parse_time("07:15:42 "), None);
    assert_eq!(parse_time("07-15-42"), None);
    assert_eq!(parse_time("ab:cd:ef"), None);
    assert_eq!(parse_time("07:15:4x"), None);
}

#[test]
fn parse_inverts_format() {
    let t = TimeOfDay::new(19, 4, 30);
    assert_eq!(parse_time(format_time(&t).as_str()), Some(t));
}

#[test]
fn timestamps_compare_day_first() {
    let early = Timestamp::new(737999, TimeOfDay::new(23, 59, 59));
    let late = Timestamp::new(738000, TimeOfDay::new(0, 0, 0));
    assert!(early.le(&late));
    assert!(!late.le(&early));
    assert!(early.le(&early));
    let noon = Timestamp::new(738000, TimeOfDay::new(12, 0, 0));
    assert!(late.le(&noon));
    assert!(!noon.le(&late));
}

#[test]
fn day_seconds_counts_from_midnight() {
    assert_eq!(TimeOfDay::new(0, 0, 0).day_seconds(), 0);
    assert_eq!(TimeOfDay::new(7, 15, 42).day_seconds(), 7 * 3600 + 15 * 60 + 42);
    assert_eq!(TimeOfDay::new(23, 59, 59).day_seconds(), 86399);
}
