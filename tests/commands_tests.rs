use eule::{clean_count, obfuscate_id, parse_interval, uptime_parts, EuleError};

#[test]
fn intervals_in_each_unit() {
    assert_eq!(parse_interval(5, "minutes").unwrap().as_secs(), 300);
    assert_eq!(parse_interval(5, "m").unwrap().as_secs(), 300);
    assert_eq!(parse_interval(2, "Hours").unwrap().as_secs(), 7200);
    assert_eq!(parse_interval(1, "DAY").unwrap().as_secs(), 86400);
    assert_eq!(parse_interval(3, "d").unwrap().as_secs(), 259200);
    assert_eq!(parse_interval(1, "weeks").unwrap_err(), EuleError::InvalidTimeUnit);
    assert_eq!(parse_interval(u64::MAX, "days").unwrap_err(), EuleError::InvalidInterval);
}

#[test]
fn clean_counts_are_bounded() {
    assert_eq!(clean_count(None), 10);
    assert_eq!(clean_count(Some(25)), 25);
    assert_eq!(clean_count(Some(100)), 100);
    assert_eq!(clean_count(Some(5000)), 100);
    assert_eq!(clean_count(Some(0)), 0);
}

#[test]
fn uptime_splits_into_units() {
    assert_eq!(uptime_parts(0), (0, 0, 0, 0));
    assert_eq!(uptime_parts(90061), (1, 1, 1, 1));
    assert_eq!(uptime_parts(86399), (0, 23, 59, 59));
}

#[test]
fn ids_show_in_lowercase_hex() {
    assert_eq!(obfuscate_id(0), "0");
    assert_eq!(obfuscate_id(255), "ff");
    assert_eq!(obfuscate_id(12345), "3039");
    assert_eq!(obfuscate_id(u64::MAX), "ffffffffffffffff");
}
