use vstd::prelude::*;

verus! {

/// A point in time, as seconds and nanoseconds since the Unix epoch (UTC).
#[derive(Debug, Clone, Copy, PartialEq, Eq, Structural)]
pub struct Timestamp {
    pub secs: i64,
    pub nanos: u32,
}

/// One item of a feed.
#[derive(Debug, Clone)]
pub struct Article {
    pub id: Option<i64>,
    pub feed_id: i64,
    pub guid: String,
    pub title: String,
    pub link: String,
    pub summary: Option<String>,
    pub content: Option<String>,
    pub author: Option<String>,
    pub published_at: Option<Timestamp>,
}

/// An article with its texts taken as sequences of characters.
pub struct ArticleView {
    pub id: Option<i64>,
    pub feed_id: i64,
    pub guid: Seq<char>,
    pub title: Seq<char>,
    pub link: Seq<char>,
    pub summary: Option<Seq<char>>,
    pub content: Option<Seq<char>>,
    pub author: Option<Seq<char>>,
    pub published_at: Option<Timestamp>,
}

/// The characters of an optional text.
pub open spec fn opt_text(text: Option<String>) -> Option<Seq<char>> {
    match text {
        Some(s) => Some(s@),
        None => None,
    }
}

impl View for Article {
    type V = ArticleView;

    open spec fn view(&self) -> ArticleView {
        ArticleView {
            id: self.id,
            feed_id: self.feed_id,
            guid: self.guid@,
            title: self.title@,
            link: self.link@,
            summary: opt_text(self.summary),
            content: opt_text(self.content),
            author: opt_text(self.author),
            published_at: self.published_at,
        }
    }
}

/// A copy of an optional text.
pub(crate) fn copy_opt_text(text: &Option<String>) -> (copy: Option<String>)
    ensures
        opt_text(copy) == opt_text(*text),
{
    match text {
        Some(s) => Some(s.clone()),
        None => None,
    }
}

} // verus!
