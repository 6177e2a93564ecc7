use shutdown_scheduler::future_time::{caculate_future_time, future_instant};

#[test]
fn future_time_at_utc() {
    assert_eq!(caculate_future_time(0, 0, 5), Some("1970-01-01 00:00:05".to_string()));
    assert_eq!(
        caculate_future_time(1_700_000_000, 0, 0),
        Some("2023-11-14 22:13:20".to_string())
    );
    assert_eq!(
        caculate_future_time(1_700_000_000, 0, 3600),
        Some("2023-11-14 23:13:20".to_string())
    );
}

#[test]
fn future_time_at_an_offset() {
    assert_eq!(caculate_future_time(0, 3600, 5), Some("1970-01-01 01:00:05".to_string()));
    assert_eq!(caculate_future_time(0, -3600, 5), Some("1969-12-31 23:00:05".to_string()));
    assert_eq!(
        caculate_future_time(1_700_000_000, 8 * 3600, 86_400),
        Some("2023-11-16 06:13:20".to_string())
    );
}

#[test]
fn future_time_with_negative_delay() {
    assert_eq!(caculate_future_time(10, 0, -10), Some("1970-01-01 00:00:00".to_string()));
}

#[test]
fn future_time_out_of_range() {
    assert_eq!(caculate_future_time(i64::MAX, 0, 1), None);
    assert_eq!(caculate_future_time(i64::MIN, 0, -1), None);
    assert_eq!(caculate_future_time(i64::MAX, 0, 0), None);
    assert_eq!(caculate_future_time(0, 86_400, 0), None);
    assert_eq!(caculate_future_time(0, -86_400, 0), None);
}

#[test]
fn future_time_carries_through_minutes_and_hours() {
    assert_eq!(
        caculate_future_time(1_672_664_645, 0, 0),
        Some("2023-01-02 13:04:05".to_string())
    );
    assert_eq!(
        caculate_future_time(1_672_664_645, 0, 3661),
        Some("2023-01-02 14:05:06".to_string())
    );
}

#[test]
fn future_time_carries_across_a_year_end() {
    assert_eq!(
        caculate_future_time(1_704_067_199, 0, 0),
        Some("2023-12-31 23:59:59".to_string())
    );
    assert_eq!(
        caculate_future_time(1_704_067_199, 0, 1),
        Some("2024-01-01 00:00:00".to_string())
    );
}

#[test]
fn future_time_steps_back_onto_a_leap_day() {
    assert_eq!(
        caculate_future_time(1_709_251_200, 0, 0),
        Some("2024-03-01 00:00:00".to_string())
    );
    assert_eq!(
        caculate_future_time(1_709_251_200, 0, -1),
        Some("2024-02-29 23:59:59".to_string())
    );
}

#[test]
fn future_time_of_zero_delay_is_now() {
    for now in [0i64, 1, 59, 86_399, 1_700_000_000, -1] {
        assert_eq!(caculate_future_time(now, 0, 0), caculate_future_time(now - 7, 0, 7));
        assert_eq!(caculate_future_time(now, 3600, 0), caculate_future_time(now + 7, 3600, -7));
    }
}

fn has_date_time_shape(text: &str) -> bool {
    let bytes = text.as_bytes();
    bytes.len() == 19
        && bytes.iter().enumerate().all(|(i, b)| match i {
            4 | 7 => *b == b'-',
            10 => *b == b' ',
            13 | 16 => *b == b':',
            _ => b.is_ascii_digit(),
        })
}

#[test]
fn future_time_has_nineteen_characters_in_four_digit_years() {
    let first = -62_167_219_200i64;
    let last = 253_402_300_799i64;
    assert_eq!(caculate_future_time(first, 0, 0), Some("0000-01-01 00:00:00".to_string()));
    assert_eq!(caculate_future_time(last, 0, 0), Some("9999-12-31 23:59:59".to_string()));
    assert_eq!(caculate_future_time(first + 3600, -3600, 0), Some("0000-01-01 00:00:00".to_string()));
    assert_eq!(caculate_future_time(last - 3600, 3600, 0), Some("9999-12-31 23:59:59".to_string()));
    for now in [first, -1_000_000_000_000 / 100, -1, 0, 951_782_400, 1_700_000_000, last - i32::MAX as i64] {
        for seconds in [0, 1, 59, 3600, 86_400, i32::MAX] {
            let text = caculate_future_time(now, 0, seconds).unwrap();
            assert!(has_date_time_shape(&text), "{:?}", text);
        }
    }
    // one second outside the four-digit years the year takes a sign
    assert!(!has_date_time_shape(&caculate_future_time(first, 0, -1).unwrap()));
    assert!(!has_date_time_shape(&caculate_future_time(last, 0, 1).unwrap()));
}

#[test]
fn future_time_texts_sort_in_time_order() {
    let now = 1_703_980_800i64;
    let delays = [-86_400, -1, 0, 1, 59, 60, 3599, 3600, 86_399, 86_400, 172_800, 31_622_400];
    let texts: Vec<String> =
        delays.iter().map(|d| caculate_future_time(now, 0, *d).unwrap()).collect();
    for pair in texts.windows(2) {
        assert!(pair[0] < pair[1], "{:?}", pair);
    }
}

#[test]
fn future_time_exists_exactly_within_the_calendar() {
    let first = -8_334_601_228_800i64;
    let last = 8_210_266_876_799i64;
    assert!(caculate_future_time(first, 0, 0).is_some());
    assert!(caculate_future_time(first, 0, -1).is_none());
    assert!(caculate_future_time(first - 1, 0, 1).is_some());
    assert!(caculate_future_time(last, 0, 0).is_some());
    assert!(caculate_future_time(last, 0, 1).is_none());
    assert!(caculate_future_time(last + 1, 0, -1).is_some());
    assert!(caculate_future_time(last, 86_399, 0).is_some());
    assert!(caculate_future_time(first, -86_399, 0).is_some());
    assert!(caculate_future_time(0, 86_399, i32::MAX).is_some());
    assert!(caculate_future_time(0, -86_399, i32::MIN).is_some());
}

#[test]
fn future_instant_adds_unless_beyond_i64() {
    assert_eq!(future_instant(0, 0), Some(0));
    assert_eq!(future_instant(1_700_000_000, 3600), Some(1_700_003_600));
    assert_eq!(future_instant(10, -20), Some(-10));
    assert_eq!(future_instant(i64::MAX, 0), Some(i64::MAX));
    assert_eq!(future_instant(i64::MAX, 1), None);
    assert_eq!(future_instant(i64::MIN, -1), None);
    assert_eq!(future_instant(i64::MIN, 1), Some(i64::MIN + 1));
}
