use vstd::prelude::*;

use crate::domain::article::{copy_opt_text, opt_text};
use crate::domain::{Article, ArticleView, Feed, FeedView, Timestamp};
use crate::parser::scan::chars_of;
use crate::storage::schema::INIT_SQL;
use crate::storage::sqlite::{
    params_view, row_view, rows_view, sqlite_execute, sqlite_execute_batch, sqlite_open,
    sqlite_prepare, sqlite_query, sqlite_statement_execute, SqlParam, SqlParamView, SqlValue,
    SqlValueView,
};
use crate::storage::timefmt::{parsed_timestamp, rfc3339_text, timestamp_from_text, timestamp_text};

verus! {

/// Why a storage operation failed.
#[derive(Debug)]
pub enum StorageError {
    /// SQLite refused the operation.
    Database(rusqlite::Error),
    /// A query that must give a row gave none.
    MissingRow,
    /// A column held a value of another kind than the table declares.
    UnexpectedValue,
}

/// Inserts a feed, or updates the name, category and country of the feed
/// with the same url.
pub const UPSERT_FEED_SQL: &'static str = "INSERT INTO feeds (name, url, category, country)
                 VALUES (?1, ?2, ?3, ?4)
                 ON CONFLICT(url) DO UPDATE SET
                    name = excluded.name,
                    category = excluded.category,
                    country = excluded.country";

/// The id of the feed with a given url.
pub const FEED_ID_SQL: &'static str = "SELECT id FROM feeds WHERE url = ?1";

/// Every feed, by name.
pub const LIST_FEEDS_SQL: &'static str = "SELECT id, name, url, category, country FROM feeds ORDER BY name";

/// Inserts an article, or updates the title, summary and content of the
/// article with the same feed and guid.
pub const SAVE_ARTICLE_SQL: &'static str = "INSERT INTO articles (feed_id, guid, title, link, summary, content, author, published_at)
             VALUES (?1, ?2, ?3, ?4, ?5, ?6, ?7, ?8)
             ON CONFLICT(feed_id, guid) DO UPDATE SET
                title = excluded.title,
                summary = excluded.summary,
                content = excluded.content
             ";

/// The articles of one feed, latest first.
pub const LIST_FEED_ARTICLES_SQL: &'static str = "SELECT id, feed_id, guid, title, link, summary, content, author, published_at
                 FROM articles WHERE feed_id = ?1
                 ORDER BY published_at DESC";

/// Every article, latest first.
pub const LIST_ALL_ARTICLES_SQL: &'static str = "SELECT id, feed_id, guid, title, link, summary, content, author, published_at
                 FROM articles
                 ORDER BY published_at DESC";

/// Flips the bookmark flag of an article.
pub const TOGGLE_BOOKMARK_SQL: &'static str = "UPDATE articles SET bookmarked = 1 - bookmarked WHERE id = ?1";

/// The bookmark flag of an article.
pub const BOOKMARK_SQL: &'static str = "SELECT bookmarked FROM articles WHERE id = ?1";

/// Flips the like flag of an article.
pub const TOGGLE_LIKE_SQL: &'static str = "UPDATE articles SET liked = 1 - liked WHERE id = ?1";

/// The like flag of an article.
pub const LIKE_SQL: &'static str = "SELECT liked FROM articles WHERE id = ?1";

/// Records how far an article has been read; from 90 percent on it counts
/// as read.
pub const MARK_READ_SQL: &'static str = "UPDATE articles
             SET read_percent = ?2,
                 read = CASE WHEN ?2 >= 90 THEN 1 ELSE read END
             WHERE id = ?1";

/// The per-article flags that a reader can switch.
pub enum Flag {
    Bookmarked,
    Liked,
}

/// The reader's database of feeds and articles.
pub struct Repository {
    conn: rusqlite::Connection,
}

/// A text as a parameter, or NULL for none.
pub open spec fn opt_param(text: Option<Seq<char>>) -> SqlParamView {
    match text {
        Some(s) => SqlParamView::Text(s),
        None => SqlParamView::Null,
    }
}

/// The stored form of a publication time: its RFC 3339 text, or NULL when
/// there is none or it cannot be written.
pub open spec fn time_param(time: Option<Timestamp>) -> SqlParamView {
    match time {
        Some(t) => opt_param(rfc3339_text(t.secs, t.nanos)),
        None => SqlParamView::Null,
    }
}

/// The parameters of `UPSERT_FEED_SQL` for a feed.
pub open spec fn feed_param_values(feed: FeedView) -> Seq<SqlParamView> {
    seq![
        SqlParamView::Text(feed.name),
        SqlParamView::Text(feed.url),
        opt_param(feed.category),
        opt_param(feed.country),
    ]
}

/// The parameters of `SAVE_ARTICLE_SQL` for an article.
pub open spec fn article_param_values(article: ArticleView) -> Seq<SqlParamView> {
    seq![
        SqlParamView::Integer(article.feed_id),
        SqlParamView::Text(article.guid),
        SqlParamView::Text(article.title),
        SqlParamView::Text(article.link),
        opt_param(article.summary),
        opt_param(article.content),
        opt_param(article.author),
        time_param(article.published_at),
    ]
}

/// A read percentage held to at most 100.
pub open spec fn clamped_percent(percent: u8) -> u8 {
    if percent > 100 {
        100
    } else {
        percent
    }
}

/// A recorded read percentage never exceeds 100, and one up to 100 is kept.
pub proof fn lemma_read_percent_at_most_100(percent: u8)
    ensures
        clamped_percent(percent) <= 100,
        percent <= 100 ==> clamped_percent(percent) == percent,
{
}

pub open spec fn int_of(value: SqlValueView) -> Option<i64> {
    match value {
        SqlValueView::Integer(i) => Some(i),
        _ => None,
    }
}

pub open spec fn text_of(value: SqlValueView) -> Option<Seq<char>> {
    match value {
        SqlValueView::Text(s) => Some(s),
        _ => None,
    }
}

/// A nullable text column: `Some(None)` for NULL, `None` for a value of
/// another kind.
pub open spec fn opt_text_of(value: SqlValueView) -> Option<Option<Seq<char>>> {
    match value {
        SqlValueView::Null => Some(None),
        SqlValueView::Text(s) => Some(Some(s)),
        _ => None,
    }
}

/// The feed that a row of `LIST_FEEDS_SQL` holds, if its columns have the
/// table's kinds.
pub open spec fn feed_of_row(row: Seq<SqlValueView>) -> Option<FeedView> {
    if row.len() >= 5 && int_of(row[0]) is Some && text_of(row[1]) is Some && text_of(row[2]) is Some
        && opt_text_of(row[3]) is Some && opt_text_of(row[4]) is Some {
        Some(
            FeedView {
                id: Some(int_of(row[0]).unwrap()),
                name: text_of(row[1]).unwrap(),
                url: text_of(row[2]).unwrap(),
                category: opt_text_of(row[3]).unwrap(),
                country: opt_text_of(row[4]).unwrap(),
            },
        )
    } else {
        None
    }
}

/// The article that a row of the article queries holds, if its columns have
/// the table's kinds. A publication time that is not RFC 3339 is read as
/// none.
pub open spec fn article_of_row(row: Seq<SqlValueView>) -> Option<ArticleView> {
    if row.len() >= 9 && int_of(row[0]) is Some && int_of(row[1]) is Some && text_of(row[2]) is Some
        && text_of(row[3]) is Some && text_of(row[4]) is Some && opt_text_of(row[5]) is Some
        && opt_text_of(row[6]) is Some && opt_text_of(row[7]) is Some && opt_text_of(row[8]) is Some {
        Some(
            ArticleView {
                id: Some(int_of(row[0]).unwrap()),
                feed_id: int_of(row[1]).unwrap(),
                guid: text_of(row[2]).unwrap(),
                title: text_of(row[3]).unwrap(),
                link: text_of(row[4]).unwrap(),
                summary: opt_text_of(row[5]).unwrap(),
                content: opt_text_of(row[6]).unwrap(),
                author: opt_text_of(row[7]).unwrap(),
                published_at: match opt_text_of(row[8]).unwrap() {
                    Some(text) => parsed_timestamp(text),
                    None => None,
                },
            },
        )
    } else {
        None
    }
}

/// The feeds of a query result, when every row holds one.
pub open spec fn feeds_of_rows(rows: Seq<Seq<SqlValueView>>) -> Option<Seq<FeedView>> {
    if forall|i: int| 0 <= i < rows.len() ==> #[trigger] feed_of_row(rows[i]) is Some {
        Some(rows.map_values(|r: Seq<SqlValueView>| feed_of_row(r).unwrap()))
    } else {
        None
    }
}

/// The articles of a query result, when every row holds one.
pub open spec fn articles_of_rows(rows: Seq<Seq<SqlValueView>>) -> Option<Seq<ArticleView>> {
    if forall|i: int| 0 <= i < rows.len() ==> #[trigger] article_of_row(rows[i]) is Some {
        Some(rows.map_values(|r: Seq<SqlValueView>| article_of_row(r).unwrap()))
    } else {
        None
    }
}

/// The first column of the first row of a query result, if there is one.
pub open spec fn first_value(rows: Seq<Seq<SqlValueView>>) -> Option<SqlValueView> {
    if rows.len() > 0 && rows[0].len() > 0 {
        Some(rows[0][0])
    } else {
        None
    }
}

pub open spec fn feeds_view(feeds: Seq<Feed>) -> Seq<FeedView> {
    feeds.map_values(|f: Feed| f@)
}

pub open spec fn articles_view(articles: Seq<Article>) -> Seq<ArticleView> {
    articles.map_values(|a: Article| a@)
}

/// The parameters that store a feed.
pub fn feed_params(feed: &Feed) -> (params: Vec<SqlParam>)
    ensures
        params_view(params@) == feed_param_values(feed@),
{
    let mut params: Vec<SqlParam> = Vec::new();
    params.push(SqlParam::Text(feed.name.clone()));
    params.push(SqlParam::Text(feed.url.clone()));
    params.push(text_param(&feed.category));
    params.push(text_param(&feed.country));
    assert(params_view(params@) =~= feed_param_values(feed@));
    params
}

fn text_param(text: &Option<String>) -> (param: SqlParam)
    ensures
        param@ == opt_param(opt_text(*text)),
{
    match text {
        Some(s) => SqlParam::Text(s.clone()),
        None => SqlParam::Null,
    }
}

/// The parameters that store an article.
pub fn article_params(article: &Article) -> (params: Vec<SqlParam>)
    ensures
        params_view(params@) == article_param_values(article@),
{
    let mut params: Vec<SqlParam> = Vec::new();
    params.push(SqlParam::Integer(article.feed_id));
    params.push(SqlParam::Text(article.guid.clone()));
    params.push(SqlParam::Text(article.title.clone()));
    params.push(SqlParam::Text(article.link.clone()));
    params.push(text_param(&article.summary));
    params.push(text_param(&article.content));
    params.push(text_param(&article.author));
    let published = match article.published_at {
        Some(t) => timestamp_text(t),
        None => None,
    };
    params.push(text_param(&published));
    assert(params_view(params@) =~= article_param_values(article@));
    params
}

/// The parameters that record reading `percent` percent of an article; the
/// percentage is held to at most 100.
pub fn read_progress_params(article_id: i64, percent: u8) -> (params: Vec<SqlParam>)
    ensures
        params_view(params@) == seq![
            SqlParamView::Integer(article_id),
            SqlParamView::Integer(clamped_percent(percent) as i64),
        ],
{
    let percent = if percent > 100 {
        100
    } else {
        percent
    };
    let mut params: Vec<SqlParam> = Vec::new();
    params.push(SqlParam::Integer(article_id));
    params.push(SqlParam::Integer(percent as i64));
    assert(params_view(params@) =~= seq![
        SqlParamView::Integer(article_id),
        SqlParamView::Integer(clamped_percent(percent) as i64),
    ]);
    params
}

/// The query that lists the articles of one feed, or of every feed, with
/// its parameters.
pub fn articles_query(feed_id: Option<i64>) -> (query: (&'static str, Vec<SqlParam>))
    ensures
        feed_id is Some ==> query.0@ == LIST_FEED_ARTICLES_SQL@ && params_view(query.1@) == seq![
            SqlParamView::Integer(feed_id.unwrap()),
        ],
        feed_id is None ==> query.0@ == LIST_ALL_ARTICLES_SQL@ && query.1@.len() == 0,
{
    let mut params: Vec<SqlParam> = Vec::new();
    match feed_id {
        Some(id) => {
            params.push(SqlParam::Integer(id));
            assert(params_view(params@) =~= seq![SqlParamView::Integer(id)]);
            (LIST_FEED_ARTICLES_SQL, params)
        },
        None => (LIST_ALL_ARTICLES_SQL, params),
    }
}

fn int_cell(value: &SqlValue) -> (i: Option<i64>)
    ensures
        i == int_of(value@),
{
    match value {
        SqlValue::Integer(i) => Some(*i),
        _ => None,
    }
}

fn text_cell(value: &SqlValue) -> (text: Option<String>)
    ensures
        opt_text(text) == text_of(value@),
{
    match value {
        SqlValue::Text(s) => Some(s.clone()),
        _ => None,
    }
}

fn opt_text_cell(value: &SqlValue) -> (text: Option<Option<String>>)
    ensures
        match text {
            Some(t) => opt_text_of(value@) == Some(opt_text(t)),
            None => opt_text_of(value@) is None,
        },
{
    match value {
        SqlValue::Null => Some(None),
        SqlValue::Text(s) => Some(Some(s.clone())),
        _ => None,
    }
}

/// The feed that a row of `LIST_FEEDS_SQL` holds; `UnexpectedValue` when a
/// column is missing or of another kind.
pub fn feed_from_row(row: &Vec<SqlValue>) -> (feed: Result<Feed, StorageError>)
    ensures
        match feed_of_row(row_view(*row)) {
            Some(f) => feed matches Ok(v) && v@ == f,
            None => feed matches Err(StorageError::UnexpectedValue),
        },
{
    if row.len() < 5 {
        return Err(StorageError::UnexpectedValue);
    }
    let id = int_cell(&row[0]);
    let name = text_cell(&row[1]);
    let url = text_cell(&row[2]);
    let category = opt_text_cell(&row[3]);
    let country = opt_text_cell(&row[4]);
    match (id, name, url, category, country) {
        (Some(id), Some(name), Some(url), Some(category), Some(country)) => {
            Ok(Feed { id: Some(id), name, url, category, country })
        },
        _ => Err(StorageError::UnexpectedValue),
    }
}

/// The article that a row of the article queries holds; `UnexpectedValue`
/// when a column is missing or of another kind.
pub fn article_from_row(row: &Vec<SqlValue>) -> (article: Result<Article, StorageError>)
    ensures
        match article_of_row(row_view(*row)) {
            Some(a) => article matches Ok(v) && v@ == a,
            None => article matches Err(StorageError::UnexpectedValue),
        },
{
    if row.len() < 9 {
        return Err(StorageError::UnexpectedValue);
    }
    let id = int_cell(&row[0]);
    let feed_id = int_cell(&row[1]);
    let guid = text_cell(&row[2]);
    let title = text_cell(&row[3]);
    let link = text_cell(&row[4]);
    let summary = opt_text_cell(&row[5]);
    let content = opt_text_cell(&row[6]);
    let author = opt_text_cell(&row[7]);
    let published = opt_text_cell(&row[8]);
    match (id, feed_id, guid, title, link) {
        (Some(id), Some(feed_id), Some(guid), Some(title), Some(link)) => {
            match (summary, content, author, published) {
                (Some(summary), Some(content), Some(author), Some(published)) => {
                    let published_at = match &published {
                        Some(text) => timestamp_from_text(text.as_str()),
                        None => None,
                    };
                    Ok(
                        Article {
                            id: Some(id),
                            feed_id,
                            guid,
                            title,
                            link,
                            summary,
                            content,
                            author,
                            published_at,
                        },
                    )
                },
                _ => Err(StorageError::UnexpectedValue),
            }
        },
        _ => Err(StorageError::UnexpectedValue),
    }
}

/// The feeds of a query result; `UnexpectedValue` when a row holds none.
pub fn feeds_from_rows(rows: &Vec<Vec<SqlValue>>) -> (feeds: Result<Vec<Feed>, StorageError>)
    ensures
        match feeds_of_rows(rows_view(*rows)) {
            Some(fs) => feeds matches Ok(v) && feeds_view(v@) == fs,
            None => feeds matches Err(StorageError::UnexpectedValue),
        },
{
    let mut feeds: Vec<Feed> = Vec::new();
    let mut i: usize = 0;
    while i < rows.len()
        invariant
            i <= rows@.len(),
            feeds@.len() == i,
            forall|j: int|
                0 <= j < i ==> #[trigger] feed_of_row(rows_view(*rows)[j]) == Some(feeds@[j]@),
        decreases rows@.len() - i,
    {
        assert(rows_view(*rows)[i as int] == row_view(rows@[i as int]));
        match feed_from_row(&rows[i]) {
            Ok(feed) => {
                feeds.push(feed);
            },
            Err(e) => {
                return Err(e);
            },
        }
        i = i + 1;
    }
    assert(feeds_view(feeds@) =~= rows_view(*rows).map_values(
        |r: Seq<SqlValueView>| feed_of_row(r).unwrap(),
    ));
    Ok(feeds)
}

/// The articles of a query result; `UnexpectedValue` when a row holds none.
pub fn articles_from_rows(rows: &Vec<Vec<SqlValue>>) -> (articles: Result<Vec<Article>, StorageError>)
    ensures
        match articles_of_rows(rows_view(*rows)) {
            Some(list) => articles matches Ok(v) && articles_view(v@) == list,
            None => articles matches Err(StorageError::UnexpectedValue),
        },
{
    let mut articles: Vec<Article> = Vec::new();
    let mut i: usize = 0;
    while i < rows.len()
        invariant
            i <= rows@.len(),
            articles@.len() == i,
            forall|j: int|
                0 <= j < i ==> #[trigger] article_of_row(rows_view(*rows)[j]) == Some(
                    articles@[j]@,
                ),
        decreases rows@.len() - i,
    {
        assert(rows_view(*rows)[i as int] == row_view(rows@[i as int]));
        match article_from_row(&rows[i]) {
            Ok(article) => {
                articles.push(article);
            },
            Err(e) => {
                return Err(e);
            },
        }
        i = i + 1;
    }
    assert(articles_view(articles@) =~= rows_view(*rows).map_values(
        |r: Seq<SqlValueView>| article_of_row(r).unwrap(),
    ));
    Ok(articles)
}

/// The integer in the first column of the first row: `MissingRow` without a
/// row, `UnexpectedValue` when it is not an integer.
pub fn first_integer(rows: &Vec<Vec<SqlValue>>) -> (value: Result<i64, StorageError>)
    ensures
        rows@.len() == 0 ==> value matches Err(StorageError::MissingRow),
        rows@.len() > 0 ==> match first_value(rows_view(*rows)) {
            Some(SqlValueView::Integer(i)) => value == Ok::<i64, StorageError>(i),
            _ => value matches Err(StorageError::UnexpectedValue),
        },
{
    if rows.len() == 0 {
        return Err(StorageError::MissingRow);
    }
    assert(rows_view(*rows)[0] == row_view(rows@[0]));
    if rows[0].len() == 0 {
        return Err(StorageError::UnexpectedValue);
    }
    match int_cell(&rows[0][0]) {
        Some(i) => Ok(i),
        None => Err(StorageError::UnexpectedValue),
    }
}

/// The flag in the first column of the first row, true when it is not 0:
/// `MissingRow` without a row, `UnexpectedValue` when it is not an integer.
pub fn first_flag(rows: &Vec<Vec<SqlValue>>) -> (value: Result<bool, StorageError>)
    ensures
        rows@.len() == 0 ==> value matches Err(StorageError::MissingRow),
        rows@.len() > 0 ==> match first_value(rows_view(*rows)) {
            Some(SqlValueView::Integer(i)) => value == Ok::<bool, StorageError>(i != 0),
            _ => value matches Err(StorageError::UnexpectedValue),
        },
{
    match first_integer(rows) {
        Ok(i) => Ok(i != 0),
        Err(e) => Err(e),
    }
}

/// The statement and parameters that store a feed.
pub fn upsert_feed_statement(feed: &Feed) -> (statement: (&'static str, Vec<SqlParam>))
    ensures
        statement.0@ == UPSERT_FEED_SQL@,
        params_view(statement.1@) == feed_param_values(feed@),
{
    (UPSERT_FEED_SQL, feed_params(feed))
}

/// The query and parameters that look up the id of a feed by its url.
pub fn feed_id_query(feed: &Feed) -> (query: (&'static str, Vec<SqlParam>))
    ensures
        query.0@ == FEED_ID_SQL@,
        params_view(query.1@) == seq![SqlParamView::Text(feed.url@)],
{
    let mut params: Vec<SqlParam> = Vec::new();
    params.push(SqlParam::Text(feed.url.clone()));
    assert(params_view(params@) =~= seq![SqlParamView::Text(feed.url@)]);
    (FEED_ID_SQL, params)
}

/// The query and parameters that list every feed.
pub fn list_feeds_query() -> (query: (&'static str, Vec<SqlParam>))
    ensures
        query.0@ == LIST_FEEDS_SQL@,
        query.1@.len() == 0,
{
    (LIST_FEEDS_SQL, Vec::new())
}

/// The statements that flip a flag of an article and read it back, with
/// their parameter, the article's id.
pub fn toggle_statements(flag: Flag, article_id: i64) -> (statements: (
    &'static str,
    &'static str,
    Vec<SqlParam>,
))
    ensures
        flag is Bookmarked ==> statements.0@ == TOGGLE_BOOKMARK_SQL@ && statements.1@ == BOOKMARK_SQL@,
        flag is Liked ==> statements.0@ == TOGGLE_LIKE_SQL@ && statements.1@ == LIKE_SQL@,
        params_view(statements.2@) == seq![SqlParamView::Integer(article_id)],
{
    let mut params: Vec<SqlParam> = Vec::new();
    params.push(SqlParam::Integer(article_id));
    assert(params_view(params@) =~= seq![SqlParamView::Integer(article_id)]);
    match flag {
        Flag::Bookmarked => (TOGGLE_BOOKMARK_SQL, BOOKMARK_SQL, params),
        Flag::Liked => (TOGGLE_LIKE_SQL, LIKE_SQL, params),
    }
}

/// The statement and parameters that record reading `percent` percent of
/// an article, held to at most 100.
pub fn mark_read_statement(article_id: i64, percent: u8) -> (statement: (&'static str, Vec<SqlParam>))
    ensures
        statement.0@ == MARK_READ_SQL@,
        params_view(statement.1@) == seq![
            SqlParamView::Integer(article_id),
            SqlParamView::Integer(clamped_percent(percent) as i64),
        ],
{
    (MARK_READ_SQL, read_progress_params(article_id, percent))
}

/// `later` sorts at or after `earlier` as SQLite compares texts under its
/// default collation in a UTF-8 database: character by character, and a
/// text before every longer one that it begins.
pub open spec fn text_at_least(later: Seq<char>, earlier: Seq<char>) -> bool
    decreases later.len(),
{
    if earlier.len() == 0 {
        true
    } else if later.len() == 0 {
        false
    } else if later[0] != earlier[0] {
        earlier[0] < later[0]
    } else {
        text_at_least(later.drop_first(), earlier.drop_first())
    }
}

/// The order of texts is transitive.
pub proof fn lemma_text_at_least_transitive(a: Seq<char>, b: Seq<char>, c: Seq<char>)
    requires
        text_at_least(a, b),
        text_at_least(b, c),
    ensures
        text_at_least(a, c),
    decreases a.len(),
{
    if c.len() > 0 && b.len() > 0 && a.len() > 0 && a[0] == b[0] && b[0] == c[0] {
        lemma_text_at_least_transitive(a.drop_first(), b.drop_first(), c.drop_first());
    }
}

/// The publication time column of a row of the article queries, when it
/// holds a text; `None` for NULL (or for a value of another kind, which no
/// article row holds).
pub open spec fn published_key(row: Seq<SqlValueView>) -> Option<Seq<char>> {
    if row.len() >= 9 {
        match row[8] {
            SqlValueView::Text(s) => Some(s),
            _ => None,
        }
    } else {
        None
    }
}

/// A row whose publication time is `first` may stand before one whose
/// publication time is `second` under `ORDER BY published_at DESC`: NULL
/// comes last, and texts go from the greatest down.
pub open spec fn may_precede(first: Option<Seq<char>>, second: Option<Seq<char>>) -> bool {
    match second {
        None => true,
        Some(b) => match first {
            None => false,
            Some(a) => text_at_least(a, b),
        },
    }
}

/// Rows in the order of `ORDER BY published_at DESC`: latest first, those
/// without a publication time last.
pub open spec fn latest_first(rows: Seq<Seq<SqlValueView>>) -> bool {
    forall|i: int, j: int|
        0 <= i < j < rows.len() ==> may_precede(
            #[trigger] published_key(rows[i]),
            #[trigger] published_key(rows[j]),
        )
}

proof fn lemma_may_precede_transitive(a: Option<Seq<char>>, b: Option<Seq<char>>, c: Option<Seq<char>>)
    requires
        may_precede(a, b),
        may_precede(b, c),
    ensures
        may_precede(a, c),
{
    if a is Some && b is Some && c is Some {
        lemma_text_at_least_transitive(a.unwrap(), b.unwrap(), c.unwrap());
    }
}

/// Whether `later` sorts at or after `earlier` (`text_at_least`).
pub fn is_text_at_least(later: &Vec<char>, earlier: &Vec<char>) -> (at_least: bool)
    ensures
        at_least == text_at_least(later@, earlier@),
{
    let mut i: usize = 0;
    assert(later@.skip(0) =~= later@);
    assert(earlier@.skip(0) =~= earlier@);
    while i < later.len() && i < earlier.len() && later[i] == earlier[i]
        invariant
            i <= later@.len(),
            i <= earlier@.len(),
            text_at_least(later@, earlier@) == text_at_least(later@.skip(i as int), earlier@.skip(i as int)),
        decreases later@.len() - i,
    {
        assert(later@.skip(i as int).drop_first() =~= later@.skip(i + 1));
        assert(earlier@.skip(i as int).drop_first() =~= earlier@.skip(i + 1));
        assert(later@.skip(i as int)[0] == later@[i as int]);
        assert(earlier@.skip(i as int)[0] == earlier@[i as int]);
        i = i + 1;
    }
    if i == earlier.len() {
        assert(earlier@.skip(i as int).len() == 0);
        true
    } else if i == later.len() {
        assert(later@.skip(i as int).len() == 0);
        false
    } else {
        assert(later@.skip(i as int)[0] == later@[i as int]);
        assert(earlier@.skip(i as int)[0] == earlier@[i as int]);
        earlier[i] < later[i]
    }
}

/// The publication time column of a row as characters (`published_key`).
fn published_column(row: &Vec<SqlValue>) -> (key: Option<Vec<char>>)
    ensures
        published_key(row_view(*row)) == (match key {
            Some(k) => Some(k@),
            None => None::<Seq<char>>,
        }),
{
    if row.len() >= 9 {
        assert(row_view(*row)[8] == row@[8]@);
        match &row[8] {
            SqlValue::Text(s) => Some(chars_of(s.as_str())),
            _ => None,
        }
    } else {
        None
    }
}

/// Whether a query result is in the order of `ORDER BY published_at DESC`
/// (`latest_first`).
pub fn rows_latest_first(rows: &Vec<Vec<SqlValue>>) -> (ordered: bool)
    ensures
        ordered == latest_first(rows_view(*rows)),
{
    let ghost table = rows_view(*rows);
    if rows.len() == 0 {
        return true;
    }
    assert(table[0] == row_view(rows@[0]));
    let mut previous = published_column(&rows[0]);
    let mut k: usize = 1;
    while k < rows.len()
        invariant
            1 <= k <= rows@.len(),
            table == rows_view(*rows),
            published_key(table[k - 1]) == (match previous {
                Some(p) => Some(p@),
                None => None::<Seq<char>>,
            }),
            forall|i: int, j: int|
                0 <= i < j < k ==> may_precede(
                    #[trigger] published_key(table[i]),
                    #[trigger] published_key(table[j]),
                ),
        decreases rows@.len() - k,
    {
        assert(table[k as int] == row_view(rows@[k as int]));
        let current = published_column(&rows[k]);
        let step = match (&previous, &current) {
            (_, None) => true,
            (None, Some(_)) => false,
            (Some(p), Some(c)) => is_text_at_least(p, c),
        };
        if !step {
            assert(!may_precede(published_key(table[k - 1]), published_key(table[k as int])));
            return false;
        }
        assert forall|i: int, j: int|
            0 <= i < j < k + 1 implies may_precede(
                #[trigger] published_key(table[i]),
                #[trigger] published_key(table[j]),
            ) by {
            if j == k && i < k - 1 {
                lemma_may_precede_transitive(
                    published_key(table[i]),
                    published_key(table[k - 1]),
                    published_key(table[j]),
                );
            }
        }
        previous = current;
        k = k + 1;
    }
    true
}

/// Whether every article of a list belongs to the feed `feed_id`.
pub fn all_of_feed(articles: &Vec<Article>, feed_id: i64) -> (all: bool)
    ensures
        all == forall|i: int| 0 <= i < articles@.len() ==> (#[trigger] articles@[i]).feed_id == feed_id,
{
    let mut i: usize = 0;
    while i < articles.len()
        invariant
            i <= articles@.len(),
            forall|j: int| 0 <= j < i ==> (#[trigger] articles@[j]).feed_id == feed_id,
        decreases articles@.len() - i,
    {
        if articles[i].feed_id != feed_id {
            return false;
        }
        i = i + 1;
    }
    true
}

impl Repository {
    /// Opens (or creates) the database at `db_path` and runs `INIT_SQL`,
    /// which creates the tables and indexes that are missing.
    pub fn new(db_path: &str) -> (repo: Result<Repository, StorageError>)
        ensures
            repo matches Err(e) ==> e is Database,
    {
        let conn = match sqlite_open(db_path) {
            Ok(conn) => conn,
            Err(e) => {
                return Err(StorageError::Database(e));
            },
        };
        match sqlite_execute_batch(&conn, INIT_SQL) {
            Ok(()) => Ok(Repository { conn }),
            Err(e) => Err(StorageError::Database(e)),
        }
    }

    /// Stores a feed, keyed by its url (`upsert_feed_statement`), and returns
    /// the id that `feed_id_query` reads back (`first_integer`).
    pub fn upsert_feed(&self, feed: &Feed) -> (id: Result<i64, StorageError>)
        ensures
            id matches Err(e) ==> e is Database || e is MissingRow || e is UnexpectedValue,
    {
        let (upsert, params) = upsert_feed_statement(feed);
        if let Err(e) = sqlite_execute(&self.conn, upsert, &params) {
            return Err(StorageError::Database(e));
        }
        let (lookup, key) = feed_id_query(feed);
        let rows = match sqlite_query(&self.conn, lookup, &key) {
            Ok(rows) => rows,
            Err(e) => {
                return Err(StorageError::Database(e));
            },
        };
        first_integer(&rows)
    }

    /// Every stored feed, as `list_feeds_query` gives them (by name), decoded
    /// by `feeds_from_rows`.
    pub fn list_feeds(&self) -> (feeds: Result<Vec<Feed>, StorageError>)
        ensures
            feeds matches Ok(list) ==> forall|i: int| 0 <= i < list@.len() ==> (#[trigger] list@[i]).id is Some,
            feeds matches Err(e) ==> e is Database || e is UnexpectedValue,
    {
        let (sql, params) = list_feeds_query();
        let rows = match sqlite_query(&self.conn, sql, &params) {
            Ok(rows) => rows,
            Err(e) => {
                return Err(StorageError::Database(e));
            },
        };
        let feeds = feeds_from_rows(&rows);
        if let Ok(list) = &feeds {
            let ghost table = rows_view(rows);
            assert(feeds_of_rows(table) is Some);
            assert(feeds_view(list@).len() == list@.len());
            assert forall|i: int| 0 <= i < list@.len() implies (#[trigger] list@[i]).id is Some by {
                assert(feeds_view(list@)[i] == list@[i]@);
                assert(feed_of_row(table[i]) is Some);
            }
        }
        feeds
    }

    /// Stores articles with `SAVE_ARTICLE_SQL` and `article_params`, keyed by
    /// feed and guid: an article already stored gets the new title, summary
    /// and content. Stops at the first failure; the articles before it stay
    /// stored.
    pub fn save_articles(&self, articles: &[Article]) -> (saved: Result<(), StorageError>)
        ensures
            saved matches Err(e) ==> e is Database,
    {
        let mut stmt = match sqlite_prepare(&self.conn, SAVE_ARTICLE_SQL) {
            Ok(stmt) => stmt,
            Err(e) => {
                return Err(StorageError::Database(e));
            },
        };
        let mut i: usize = 0;
        while i < articles.len()
            decreases articles@.len() - i,
        {
            let params = article_params(&articles[i]);
            if let Err(e) = sqlite_statement_execute(&mut stmt, &params) {
                return Err(StorageError::Database(e));
            }
            i = i + 1;
        }
        Ok(())
    }

    /// The stored articles of the feed `feed_id`, or of every feed for
    /// `None`, as `articles_query` gives them: latest first, those without a
    /// publication time last. Each is decoded by `articles_from_rows`.
    /// SQLite keeps to the query's `WHERE` and `ORDER BY`; the method checks
    /// both and answers `UnexpectedValue` should a row break them.
    pub fn list_articles(&self, feed_id: Option<i64>) -> (articles: Result<Vec<Article>, StorageError>)
        ensures
            articles matches Ok(list) ==> forall|i: int| 0 <= i < list@.len() ==> (#[trigger] list@[i]).id is Some,
            articles matches Ok(list) ==> exists|rows: Seq<Seq<SqlValueView>>|
                #![trigger articles_of_rows(rows)]
                latest_first(rows) && articles_of_rows(rows) == Some(articles_view(list@)),
            articles matches Ok(list) ==> (feed_id matches Some(f) ==> forall|i: int|
                0 <= i < list@.len() ==> (#[trigger] list@[i]).feed_id == f),
            articles matches Err(e) ==> e is Database || e is UnexpectedValue,
    {
        let (sql, params) = articles_query(feed_id);
        let rows = match sqlite_query(&self.conn, sql, &params) {
            Ok(rows) => rows,
            Err(e) => {
                return Err(StorageError::Database(e));
            },
        };
        if !rows_latest_first(&rows) {
            return Err(StorageError::UnexpectedValue);
        }
        let articles = articles_from_rows(&rows);
        if let Ok(list) = &articles {
            let ghost table = rows_view(rows);
            assert(articles_of_rows(table) is Some);
            assert(articles_view(list@).len() == list@.len());
            assert forall|i: int| 0 <= i < list@.len() implies (#[trigger] list@[i]).id is Some by {
                assert(articles_view(list@)[i] == list@[i]@);
                assert(article_of_row(table[i]) is Some);
            }
            assert(latest_first(table) && articles_of_rows(table) == Some(articles_view(list@)));
            if let Some(f) = feed_id {
                if !all_of_feed(list, f) {
                    return Err(StorageError::UnexpectedValue);
                }
            }
        }
        articles
    }

    /// Flips the bookmark flag of an article and returns its new value.
    pub fn toggle_bookmark(&self, article_id: i64) -> (on: Result<bool, StorageError>)
        ensures
            on matches Err(e) ==> e is Database || e is MissingRow || e is UnexpectedValue,
    {
        self.toggle_flag(article_id, Flag::Bookmarked)
    }

    /// Flips the like flag of an article and returns its new value.
    pub fn toggle_like(&self, article_id: i64) -> (on: Result<bool, StorageError>)
        ensures
            on matches Err(e) ==> e is Database || e is MissingRow || e is UnexpectedValue,
    {
        self.toggle_flag(article_id, Flag::Liked)
    }

    /// Runs the statements of `toggle_statements` and reads the flag back
    /// with `first_flag`.
    fn toggle_flag(&self, article_id: i64, flag: Flag) -> (on: Result<bool, StorageError>)
        ensures
            on matches Err(e) ==> e is Database || e is MissingRow || e is UnexpectedValue,
    {
        let (toggle_sql, read_sql, key) = toggle_statements(flag, article_id);
        if let Err(e) = sqlite_execute(&self.conn, toggle_sql, &key) {
            return Err(StorageError::Database(e));
        }
        let rows = match sqlite_query(&self.conn, read_sql, &key) {
            Ok(rows) => rows,
            Err(e) => {
                return Err(StorageError::Database(e));
            },
        };
        first_flag(&rows)
    }

    /// Records that `percent` percent of an article has been read (at most
    /// 100, `mark_read_statement`); from 90 percent on the article counts as
    /// read.
    pub fn mark_read(&self, article_id: i64, percent: u8) -> (marked: Result<(), StorageError>)
        ensures
            marked matches Err(e) ==> e is Database,
    {
        let (sql, params) = mark_read_statement(article_id, percent);
        match sqlite_execute(&self.conn, sql, &params) {
            Ok(_) => Ok(()),
            Err(e) => Err(StorageError::Database(e)),
        }
    }
}

} // verus!
