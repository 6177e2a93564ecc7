use shutdown_scheduler::duration::{Duration, TICK_MILLIS};
use shutdown_scheduler::engine::ScheduleError;
use shutdown_scheduler::parse::{parse_duration, parse_duration_bytes};

#[test]
fn parses_single_segments() {
    assert_eq!(parse_duration("90s"), Ok(Duration { millis: 90_000 }));
    assert_eq!(parse_duration("5min"), Ok(Duration { millis: 300_000 }));
    assert_eq!(parse_duration("2m"), Ok(Duration { millis: 120_000 }));
    assert_eq!(parse_duration("1h"), Ok(Duration { millis: 3_600_000 }));
    assert_eq!(parse_duration("250ms"), Ok(Duration { millis: 250 }));
    assert_eq!(parse_duration("007s"), Ok(Duration { millis: 7000 }));
    assert_eq!(parse_duration("0s"), Ok(Duration { millis: 0 }));
}

#[test]
fn parses_and_adds_several_segments() {
    assert_eq!(parse_duration("1h30m"), Ok(Duration { millis: 5_400_000 }));
    assert_eq!(parse_duration("1m30s500ms"), Ok(Duration { millis: 90_500 }));
    assert_eq!(parse_duration("30m1h"), Ok(Duration { millis: 5_400_000 }));
    assert_eq!(parse_duration("1s1s"), Ok(Duration { millis: 2000 }));
}

#[test]
fn rejects_what_is_no_duration() {
    for text in ["", "5", "s", "5x", "-5s", "+5s", "5 s", "5s ", "1.5s", "5S", "5hr", "5mins", "h5", "5s5", "5\u{e9}"] {
        assert_eq!(parse_duration(text), Err(ScheduleError::InvalidDuration), "{:?}", text);
    }
}

#[test]
fn rejects_sums_beyond_u64_millis() {
    assert_eq!(parse_duration("18446744073709551615ms"), Ok(Duration { millis: u64::MAX }));
    assert_eq!(parse_duration("18446744073709551616ms"), Err(ScheduleError::InvalidDuration));
    assert_eq!(parse_duration("18446744073709551615ms1ms"), Err(ScheduleError::InvalidDuration));
    assert_eq!(parse_duration("18446744073709552s"), Err(ScheduleError::InvalidDuration));
    assert_eq!(parse_duration("18446744073709551s"), Ok(Duration { millis: 18446744073709551000 }));
    assert_eq!(parse_duration("99999999999999999999999h"), Err(ScheduleError::InvalidDuration));
}

#[test]
fn parses_bytes_like_text() {
    assert_eq!(parse_duration_bytes(b"1h30m"), Ok(Duration { millis: 5_400_000 }));
    assert_eq!(parse_duration_bytes(b""), Err(ScheduleError::InvalidDuration));
    assert_eq!(parse_duration_bytes(&[0x35, 0xff]), Err(ScheduleError::InvalidDuration));
}

#[test]
fn duration_from_parts() {
    assert_eq!(Duration::from_millis(1500).as_millis(), 1500);
    assert_eq!(Duration::from_secs(90), Some(Duration { millis: 90_000 }));
    assert_eq!(Duration::from_secs(u64::MAX / 1000), Some(Duration { millis: 18446744073709551000 }));
    assert_eq!(Duration::from_secs(u64::MAX / 1000 + 1), None);
    assert_eq!(Duration::from_millis(1999).as_secs(), 1);
    assert!(Duration::from_millis(0).is_zero());
    assert!(!Duration::from_millis(1).is_zero());
}

#[test]
fn ticks_round_seconds_up() {
    assert_eq!(TICK_MILLIS, 1000);
    assert_eq!(Duration::from_millis(0).ticks(), 0);
    assert_eq!(Duration::from_millis(1).ticks(), 1);
    assert_eq!(Duration::from_millis(1000).ticks(), 1);
    assert_eq!(Duration::from_millis(1001).ticks(), 2);
    assert_eq!(Duration::from_millis(4500).ticks(), 5);
    assert_eq!(Duration::from_millis(5000).ticks(), 5);
    assert_eq!(Duration::from_millis(u64::MAX).ticks(), 18446744073709552);
}
