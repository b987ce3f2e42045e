use news_tui::parser::safety::is_parser_safe;
use news_tui::parser::rss::{
    article_from_entry, articles_from_entries, parse_feed, FeedEntry, ParseError,
};
use news_tui::domain::Timestamp;

const SAMPLE_RSS: &str = r#"<?xml version="1.0"?>
    <rss version="2.0">
        <channel>
            <title>Test Feed</title>
            <item>
                <guid>abc-123</guid>
                <title>First Article</title>
                <link>https://example.com/1</link>
                <description>Some summary</description>
                <pubDate>Tue, 10 Jun 2025 10:00:00 GMT</pubDate>
            </item>
            <item>
                <guid>abc-456</guid>
                <title>Second Article</title>
                <link>https://example.com/2</link>
            </item>
        </channel>
    </rss>"#;

#[test]
fn parses_rss_correctly() {
    let articles = parse_feed(SAMPLE_RSS, 1).unwrap();
    assert_eq!(articles.len(), 2);
    assert_eq!(articles[0].title, "First Article");
    assert_eq!(articles[0].link, "https://example.com/1");
    assert_eq!(articles[0].feed_id, 1);
    assert!(articles[0].published_at.is_some());
    assert!(articles[1].published_at.is_none());
}

#[test]
fn rejects_invalid_xml() {
    assert!(parse_feed("<not-a-feed>", 1).is_err());
}

#[test]
fn parsed_fields_come_from_the_entries() {
    let articles = parse_feed(SAMPLE_RSS, 7).unwrap();
    assert_eq!(articles[0].guid, "abc-123");
    assert_eq!(articles[0].summary.as_deref(), Some("Some summary"));
    assert_eq!(articles[0].id, None);
    assert_eq!(articles[1].guid, "abc-456");
    assert_eq!(articles[1].title, "Second Article");
    assert_eq!(articles[1].summary, None);
    assert!(articles.iter().all(|a| a.feed_id == 7));
    // 2025-06-10T10:00:00Z
    assert_eq!(articles[0].published_at, Some(Timestamp { secs: 1_749_549_600, nanos: 0 }));
}

#[test]
fn text_without_markup_is_not_a_feed() {
    assert!(matches!(parse_feed("plain words", 1), Err(ParseError::InvalidFormat(_))));
    assert!(matches!(parse_feed("", 1), Err(ParseError::InvalidFormat(_))));
}

#[test]
fn feed_without_entries_is_empty() {
    let rss = r#"<rss version="2.0"><channel><title>Nothing</title></channel></rss>"#;
    assert!(matches!(parse_feed(rss, 1), Err(ParseError::EmptyFeed)));
}

#[test]
fn atom_entry_falls_back_to_update_time() {
    let atom = r#"<feed xmlns="http://www.w3.org/2005/Atom">
        <title>A</title><id>f</id><updated>2005-07-31T12:29:29Z</updated>
        <entry><title>Only</title><id>e1</id><updated>2005-07-31T12:29:29Z</updated>
          <author><name>Ann</name></author><author><name>Bob</name></author>
          <link href="https://a.example/1"/><link href="https://a.example/2"/>
          <content type="text">Body</content>
        </entry></feed>"#;
    let articles = parse_feed(atom, 3).unwrap();
    assert_eq!(articles.len(), 1);
    assert_eq!(articles[0].author.as_deref(), Some("Ann"));
    assert_eq!(articles[0].link, "https://a.example/1");
    assert_eq!(articles[0].content.as_deref(), Some("Body"));
    assert_eq!(articles[0].published_at, Some(Timestamp { secs: 1_122_812_969, nanos: 0 }));
}

fn entry(id: &str) -> FeedEntry {
    FeedEntry {
        id: id.to_string(),
        title: None,
        links: vec![],
        summary: None,
        content: Some(None),
        authors: vec![],
        published: None,
        updated: Some(Timestamp { secs: 5, nanos: 6 }),
    }
}

#[test]
fn entry_without_title_or_link_gets_empty_texts() {
    let a = article_from_entry(&entry("x"), 9);
    assert_eq!(a.title, "");
    assert_eq!(a.link, "");
    assert_eq!(a.content, None);
    assert_eq!(a.author, None);
    assert_eq!(a.published_at, Some(Timestamp { secs: 5, nanos: 6 }));
    assert_eq!(a.feed_id, 9);
}

#[test]
fn publication_time_wins_over_update_time() {
    let mut e = entry("x");
    e.published = Some(Timestamp { secs: 1, nanos: 2 });
    assert_eq!(article_from_entry(&e, 1).published_at, Some(Timestamp { secs: 1, nanos: 2 }));
}

#[test]
fn no_entries_give_empty_feed_error() {
    assert!(matches!(articles_from_entries(&vec![], 1), Err(ParseError::EmptyFeed)));
    let list = articles_from_entries(&vec![entry("a"), entry("b")], 2).unwrap();
    assert_eq!(list.len(), 2);
    assert_eq!(list[0].guid, "a");
    assert_eq!(list[1].guid, "b");
}

#[test]
fn parser_safety_guards_play_times() {
    assert!(is_parser_safe(SAMPLE_RSS));
    let podcast = r#"<?xml version="1.0" encoding="UTF-8"?><rss version="2.0" xmlns:itunes="http://www.itunes.com/dtds/podcast-1.0.dtd"><channel><item><title>Weekend start</title><guid>p1</guid><itunes:duration>00:30:00</itunes:duration></item></channel></rss>"#;
    assert!(is_parser_safe(podcast));
    let articles = parse_feed(podcast, 1).unwrap();
    assert_eq!(articles[0].title, "Weekend start");
    let media = r#"<rss version="2.0" xmlns:media="http://search.yahoo.com/mrss/"><channel><item><title>E</title><media:content url="x" time="3"/></item></channel></rss>"#;
    assert!(is_parser_safe(media));
    assert_eq!(parse_feed(media, 1).unwrap().len(), 1);
    let long = podcast.replace("00:30:00", "1234567890123456");
    assert!(!is_parser_safe(&long));
    let arabic = podcast.replace("00:30:00", "\u{663}");
    assert!(!is_parser_safe(&arabic));
    let char_ref = podcast.replace("00:30:00", "&#51;");
    assert!(!is_parser_safe(&char_ref));
    let joined = podcast.replace("00:30:00", "12<!-- -->34");
    assert!(!is_parser_safe(&joined));
    let latin = podcast.replace("UTF-8", "ISO-8859-1");
    assert!(!is_parser_safe(&latin));
    let long_without_namespace = "<rss version=\"2.0\"><channel><item><title>12345678901234567890</title></item></channel></rss>";
    assert!(is_parser_safe(long_without_namespace));
    assert!(!is_parser_safe("<rss>\u{0}</rss>"));
    assert!(!is_parser_safe("<rss>\u{1b}</rss>"));
    assert!(is_parser_safe(""));
}
