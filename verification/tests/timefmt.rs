use news_tui::domain::Timestamp;
use news_tui::storage::timefmt::{timestamp_from_text, timestamp_text};

#[test]
fn stored_times_read_back() {
    for t in [
        Timestamp { secs: 0, nanos: 0 },
        Timestamp { secs: 1_749_549_600, nanos: 123_000_000 },
        Timestamp { secs: -62_167_219_200, nanos: 0 },
        Timestamp { secs: 253_402_300_799, nanos: 999_999_999 },
        Timestamp { secs: 59, nanos: 1_500_000_000 },
        Timestamp { secs: 1_000, nanos: 7 },
    ] {
        let text = timestamp_text(t).unwrap();
        assert_eq!(timestamp_from_text(&text), Some(t), "{text}");
    }
}

#[test]
fn five_digit_years_do_not_read_back() {
    let t = Timestamp { secs: 253_402_300_800, nanos: 0 };
    let text = timestamp_text(t).unwrap();
    assert_eq!(text, "+10000-01-01T00:00:00+00:00");
    assert_eq!(timestamp_from_text(&text), None);
}
