use focus::block_duration::parse_time_string;
use std::time::Duration;

#[test]
fn test_parse_minutes() {
    let d = parse_time_string(&"5m".to_string());
    assert_eq!(d, Duration::from_millis(5 * 60 * 1000));
}

#[test]
fn test_parse_seconds() {
    let d = parse_time_string(&"10s".to_string());
    assert_eq!(d, Duration::from_millis(10 * 1000));
}

#[test]
fn test_parse_hours() {
    let d = parse_time_string(&"2h".to_string());
    assert_eq!(d, Duration::from_millis(2 * 60 * 60 * 1000));
}

#[test]
fn test_parse_invalid() {
    let d = parse_time_string(&"abc".to_string());
    assert_eq!(d, Duration::from_millis(0));
}

#[test]
fn parse_millis_exact_values() {
    assert_eq!(focus::duration::parse_time_string(&"25m".to_string()), 25 * 60 * 1000);
    assert_eq!(focus::duration::parse_time_string(&"90s".to_string()), 90 * 1000);
    assert_eq!(focus::duration::parse_time_string(&"1h".to_string()), 60 * 60 * 1000);
    assert_eq!(focus::duration::parse_time_string(&"".to_string()), 0);
}
