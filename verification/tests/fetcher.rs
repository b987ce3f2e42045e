use news_tui::fetcher::{client_settings, is_white_space};
use news_tui::fetcher::{check_body, is_blank, FetchError, Fetcher};

#[test]
fn blank_bodies_are_rejected() {
    assert!(matches!(check_body("  \n\t ".into(), "https://f"), Err(FetchError::EmptyBody { url }) if url == "https://f"));
    assert!(matches!(check_body(String::new(), "u"), Err(FetchError::EmptyBody { .. })));
    assert_eq!(check_body(" <rss/> ".into(), "u").unwrap(), " <rss/> ");
}

#[test]
fn blankness_follows_unicode_white_space() {
    assert!(is_blank(""));
    assert!(is_blank("\u{a0}\u{3000} \r\n"));
    assert!(!is_blank("  x "));
}

#[test]
fn fetcher_builds() {
    assert!(Fetcher::new().is_ok());
}

#[test]
fn white_space_is_what_std_calls_white_space() {
    for u in 0u32..=0x10FFFF {
        if let Some(c) = char::from_u32(u) {
            assert_eq!(is_white_space(c), c.is_whitespace(), "U+{u:04X}");
        }
    }
}

#[test]
fn client_settings_are_fixed() {
    assert_eq!(client_settings(), (15, "terminal-news-tui/0.1"));
}
