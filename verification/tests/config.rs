use news_tui::config::{resolve_config_path, ConfigError, FeedConfig, LOCAL_CONFIG_PATH};
use news_tui::domain::Feed;

#[test]
fn configured_feed_becomes_a_feed_without_id() {
    let fc = FeedConfig {
        name: "N".into(),
        url: "https://n/rss".into(),
        category: Some("news".into()),
        country: None,
    };
    let feed = Feed::from(fc);
    assert_eq!(feed.id, None);
    assert_eq!(feed.name, "N");
    assert_eq!(feed.url, "https://n/rss");
    assert_eq!(feed.category.as_deref(), Some("news"));
    assert_eq!(feed.country, None);
}

#[test]
fn local_configuration_comes_first() {
    assert_eq!(resolve_config_path(true, Some("/etc".into())).unwrap(), LOCAL_CONFIG_PATH);
    assert_eq!(resolve_config_path(true, None).unwrap(), "config/feeds.toml");
}

#[test]
fn system_configuration_directory_is_used_otherwise() {
    let p = resolve_config_path(false, Some("/home/u/.config".into())).unwrap();
    let expected = std::path::Path::new("/home/u/.config").join("news-tui").join("feeds.toml");
    assert_eq!(std::path::Path::new(&p), expected.as_path());
    assert_eq!(resolve_config_path(false, None), Err(ConfigError::NoConfigDir));
}

#[test]
fn joined_path_keeps_directory_and_names() {
    let dir = "/home/u/.config";
    let p = resolve_config_path(false, Some(dir.into())).unwrap();
    assert!(p.starts_with(dir));
    assert!(p.ends_with("feeds.toml"));
    assert!(p.contains("news-tui"));
    assert!(p.len() <= dir.len() + 1 + "news-tui".len() + 1 + "feeds.toml".len());
    let p = resolve_config_path(false, Some("/cfg/".into())).unwrap();
    assert_eq!(std::path::Path::new(&p), std::path::Path::new("/cfg/news-tui/feeds.toml"));
}
