use news_tui::storage::repository::{
    feed_id_query, list_feeds_query, mark_read_statement, toggle_statements, upsert_feed_statement,
    Flag, BOOKMARK_SQL, FEED_ID_SQL, LIKE_SQL, LIST_FEEDS_SQL, MARK_READ_SQL, TOGGLE_BOOKMARK_SQL,
    TOGGLE_LIKE_SQL, UPSERT_FEED_SQL,
};
use news_tui::domain::{Article, Feed, Timestamp};
use news_tui::storage::repository::{
    article_from_row, article_params, articles_query, feed_from_row, feed_params, first_flag,
    first_integer, read_progress_params, Repository, StorageError, LIST_ALL_ARTICLES_SQL,
    LIST_FEED_ARTICLES_SQL,
};
use news_tui::storage::sqlite::{SqlParam, SqlValue};

fn test_repo() -> Repository {
    Repository::new(":memory:").unwrap()
}

#[test]
fn feed_upsert_is_idempotent() {
    let repo = test_repo();
    let feed = Feed {
        id: None,
        name: "Test".into(),
        url: "https://example.com/rss".into(),
        category: None,
        country: Some("iran".into()),
    };

    let id1 = repo.upsert_feed(&feed).unwrap();
    let id2 = repo.upsert_feed(&feed).unwrap();

    assert_eq!(id1, id2);
    assert_eq!(repo.list_feeds().unwrap().len(), 1);
}

#[test]
fn duplicate_articles_are_updated_not_duplicated() {
    let repo = test_repo();
    let feed_id = repo
        .upsert_feed(&Feed {
            id: None,
            name: "T".into(),
            url: "u".into(),
            category: None,
            country: None,
        })
        .unwrap();

    let make = |title: &str| Article {
        id: None,
        feed_id,
        guid: "guid-1".into(),
        title: title.into(),
        link: "https://x.com/1".into(),
        summary: None,
        content: None,
        author: None,
        published_at: None,
    };

    repo.save_articles(&[make("v1")]).unwrap();
    repo.save_articles(&[make("v2")]).unwrap();

    let all = repo.list_articles(None).unwrap();
    assert_eq!(all.len(), 1);
    assert_eq!(all[0].title, "v2");
}

#[test]
fn toggle_bookmark_works() {
    let repo = test_repo();
    let feed_id = repo
        .upsert_feed(&Feed {
            id: None,
            name: "T".into(),
            url: "u".into(),
            category: None,
            country: None,
        })
        .unwrap();

    repo.save_articles(&[Article {
        id: None,
        feed_id,
        guid: "g".into(),
        title: "t".into(),
        link: "l".into(),
        summary: None,
        content: None,
        author: None,
        published_at: None,
    }])
    .unwrap();

    let article_id = repo.list_articles(None).unwrap()[0].id.unwrap();

    assert!(repo.toggle_bookmark(article_id).unwrap());
    assert!(!repo.toggle_bookmark(article_id).unwrap());
}

fn article(feed_id: i64, guid: &str, secs: Option<i64>) -> Article {
    Article {
        id: None,
        feed_id,
        guid: guid.into(),
        title: format!("title {guid}"),
        link: format!("https://x.com/{guid}"),
        summary: Some("s".into()),
        content: None,
        author: Some("a".into()),
        published_at: secs.map(|s| Timestamp { secs: s, nanos: 0 }),
    }
}

#[test]
fn feeds_are_listed_by_name_and_updated_by_url() {
    let repo = test_repo();
    let b = Feed { id: None, name: "B".into(), url: "ub".into(), category: None, country: None };
    let a = Feed { id: None, name: "A".into(), url: "ua".into(), category: Some("c".into()), country: None };
    let id_b = repo.upsert_feed(&b).unwrap();
    let id_a = repo.upsert_feed(&a).unwrap();
    assert_ne!(id_a, id_b);
    let renamed = Feed { name: "C".into(), ..b.clone() };
    assert_eq!(repo.upsert_feed(&renamed).unwrap(), id_b);
    let feeds = repo.list_feeds().unwrap();
    assert_eq!(feeds.len(), 2);
    assert_eq!(feeds[0].name, "A");
    assert_eq!(feeds[0].id, Some(id_a));
    assert_eq!(feeds[0].category.as_deref(), Some("c"));
    assert_eq!(feeds[1].name, "C");
    assert_eq!(feeds[1].id, Some(id_b));
}

#[test]
fn articles_come_back_latest_first_with_their_times() {
    let repo = test_repo();
    let f1 = repo.upsert_feed(&Feed { id: None, name: "1".into(), url: "u1".into(), category: None, country: None }).unwrap();
    let f2 = repo.upsert_feed(&Feed { id: None, name: "2".into(), url: "u2".into(), category: None, country: None }).unwrap();
    repo.save_articles(&[
        article(f1, "old", Some(1_000_000_000)),
        article(f1, "new", Some(1_700_000_000)),
        article(f2, "other", Some(1_500_000_000)),
    ])
    .unwrap();
    let all = repo.list_articles(None).unwrap();
    let guids: Vec<&str> = all.iter().map(|a| a.guid.as_str()).collect();
    assert_eq!(guids, vec!["new", "other", "old"]);
    assert_eq!(all[0].published_at, Some(Timestamp { secs: 1_700_000_000, nanos: 0 }));
    assert_eq!(all[0].author.as_deref(), Some("a"));
    let one = repo.list_articles(Some(f2)).unwrap();
    assert_eq!(one.len(), 1);
    assert_eq!(one[0].guid, "other");
}

#[test]
fn toggle_like_and_mark_read_work() {
    let repo = test_repo();
    let f = repo.upsert_feed(&Feed { id: None, name: "T".into(), url: "u".into(), category: None, country: None }).unwrap();
    repo.save_articles(&[article(f, "g", None)]).unwrap();
    let id = repo.list_articles(None).unwrap()[0].id.unwrap();
    assert!(repo.toggle_like(id).unwrap());
    assert!(!repo.toggle_like(id).unwrap());
    repo.mark_read(id, 250).unwrap();
    assert!(matches!(repo.toggle_bookmark(id + 100), Err(StorageError::MissingRow)));
}

#[test]
fn read_percent_is_clamped() {
    let p = read_progress_params(4, 250);
    assert!(matches!(p[0], SqlParam::Integer(4)));
    assert!(matches!(p[1], SqlParam::Integer(100)));
    let p = read_progress_params(4, 42);
    assert!(matches!(p[1], SqlParam::Integer(42)));
}

#[test]
fn params_follow_the_columns() {
    let feed = Feed { id: Some(3), name: "n".into(), url: "u".into(), category: None, country: Some("c".into()) };
    let p = feed_params(&feed);
    assert_eq!(p.len(), 4);
    assert!(matches!(&p[0], SqlParam::Text(s) if s == "n"));
    assert!(matches!(&p[1], SqlParam::Text(s) if s == "u"));
    assert!(matches!(&p[2], SqlParam::Null));
    assert!(matches!(&p[3], SqlParam::Text(s) if s == "c"));

    let a = article(2, "g", Some(0));
    let p = article_params(&a);
    assert_eq!(p.len(), 8);
    assert!(matches!(&p[0], SqlParam::Integer(2)));
    assert!(matches!(&p[7], SqlParam::Text(s) if s == "1970-01-01T00:00:00+00:00"));
    let p = article_params(&article(2, "g", None));
    assert!(matches!(&p[7], SqlParam::Null));
}

#[test]
fn article_queries_depend_on_the_feed() {
    let (sql, params) = articles_query(Some(5));
    assert_eq!(sql, LIST_FEED_ARTICLES_SQL);
    assert!(matches!(params[..], [SqlParam::Integer(5)]));
    let (sql, params) = articles_query(None);
    assert_eq!(sql, LIST_ALL_ARTICLES_SQL);
    assert!(params.is_empty());
}

#[test]
fn rows_decode_by_column_kind() {
    let row = vec![
        SqlValue::Integer(1),
        SqlValue::Text("n".into()),
        SqlValue::Text("u".into()),
        SqlValue::Null,
        SqlValue::Text("c".into()),
    ];
    let feed = feed_from_row(&row).unwrap();
    assert_eq!(feed.id, Some(1));
    assert_eq!(feed.country.as_deref(), Some("c"));
    assert_eq!(feed.category, None);
    let bad = vec![SqlValue::Null, SqlValue::Text("n".into()), SqlValue::Text("u".into()), SqlValue::Null, SqlValue::Null];
    assert!(matches!(feed_from_row(&bad), Err(StorageError::UnexpectedValue)));
    assert!(matches!(feed_from_row(&row[..3].to_vec()), Err(StorageError::UnexpectedValue)));

    let row = vec![
        SqlValue::Integer(1),
        SqlValue::Integer(2),
        SqlValue::Text("g".into()),
        SqlValue::Text("t".into()),
        SqlValue::Text("l".into()),
        SqlValue::Null,
        SqlValue::Null,
        SqlValue::Null,
        SqlValue::Text("2001-09-09T01:46:40.5+00:00".into()),
    ];
    let a = article_from_row(&row).unwrap();
    assert_eq!(a.published_at, Some(Timestamp { secs: 1_000_000_000, nanos: 500_000_000 }));
    let mut unreadable = row.clone();
    unreadable[8] = SqlValue::Text("yesterday".into());
    assert_eq!(article_from_row(&unreadable).unwrap().published_at, None);
}

#[test]
fn first_value_decoding() {
    assert!(matches!(first_integer(&vec![]), Err(StorageError::MissingRow)));
    assert_eq!(first_integer(&vec![vec![SqlValue::Integer(9)]]).unwrap(), 9);
    assert!(matches!(first_integer(&vec![vec![SqlValue::Null]]), Err(StorageError::UnexpectedValue)));
    assert!(first_flag(&vec![vec![SqlValue::Integer(2)]]).unwrap());
    assert!(!first_flag(&vec![vec![SqlValue::Integer(0)]]).unwrap());
}

#[test]
fn statements_follow_each_operation() {
    let feed = Feed { id: None, name: "n".into(), url: "u".into(), category: None, country: None };
    let (sql, p) = upsert_feed_statement(&feed);
    assert_eq!(sql, UPSERT_FEED_SQL);
    assert_eq!(p.len(), 4);
    let (sql, p) = feed_id_query(&feed);
    assert_eq!(sql, FEED_ID_SQL);
    assert!(matches!(&p[..], [SqlParam::Text(s)] if s == "u"));
    let (sql, p) = list_feeds_query();
    assert_eq!(sql, LIST_FEEDS_SQL);
    assert!(p.is_empty());
    let (t, r, p) = toggle_statements(Flag::Bookmarked, 8);
    assert_eq!((t, r), (TOGGLE_BOOKMARK_SQL, BOOKMARK_SQL));
    assert!(matches!(&p[..], [SqlParam::Integer(8)]));
    let (t, r, _) = toggle_statements(Flag::Liked, 8);
    assert_eq!((t, r), (TOGGLE_LIKE_SQL, LIKE_SQL));
    let (sql, p) = mark_read_statement(3, 200);
    assert_eq!(sql, MARK_READ_SQL);
    assert!(matches!(&p[..], [SqlParam::Integer(3), SqlParam::Integer(100)]));
}
