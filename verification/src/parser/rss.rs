use vstd::prelude::*;

use crate::domain::article::{copy_opt_text, opt_text};
use crate::domain::{Article, ArticleView, Timestamp};
use crate::parser::safety::parser_safe;

verus! {

/// The error that the feed parser returns.
#[verifier::external_type_specification]
#[verifier::external_body]
pub struct ExParseFeedError(feed_rs::parser::ParseFeedError);

/// An entry of a feed as the feed parser models it.
#[verifier::external_type_specification]
#[verifier::external_body]
pub struct ExParsedEntry(feed_rs::model::Entry);

/// Why a feed document gave no articles.
#[derive(Debug)]
pub enum ParseError {
    /// The document is not a feed that the parser understands.
    InvalidFormat(feed_rs::parser::ParseFeedError),
    /// The feed has no entries.
    EmptyFeed,
}

/// What an article is made of, as the parser reads it from one feed entry.
pub struct FeedEntry {
    pub id: String,
    pub title: Option<String>,
    pub links: Vec<String>,
    pub summary: Option<String>,
    /// The entry's content element, if any, with its body, if any.
    pub content: Option<Option<String>>,
    pub authors: Vec<String>,
    pub published: Option<Timestamp>,
    pub updated: Option<Timestamp>,
}

/// The article made from `entry` for the feed `feed_id`: the entry's first
/// link, first author and title (or "" without one), its content body, and
/// its publication time, or else its update time.
pub open spec fn entry_article(entry: FeedEntry, feed_id: i64) -> ArticleView {
    ArticleView {
        id: None,
        feed_id: feed_id,
        guid: entry.id@,
        title: match entry.title {
            Some(t) => t@,
            None => Seq::empty(),
        },
        link: if entry.links@.len() > 0 {
            entry.links@[0]@
        } else {
            Seq::empty()
        },
        summary: opt_text(entry.summary),
        content: match entry.content {
            Some(Some(body)) => Some(body@),
            _ => None,
        },
        author: if entry.authors@.len() > 0 {
            Some(entry.authors@[0]@)
        } else {
            None
        },
        published_at: match entry.published {
            Some(t) => Some(t),
            None => entry.updated,
        },
    }
}

/// The articles made from `entries`, one for each, in their order.
pub open spec fn entry_articles(entries: Seq<FeedEntry>, feed_id: i64) -> Seq<ArticleView> {
    entries.map_values(|e: FeedEntry| entry_article(e, feed_id))
}

/// What feed-rs reads from one entry, as far as it follows from the
/// document: the id is `None` when the entry has none and feed-rs made one
/// up, which it does at random when the entry also has no link.
pub struct EntryFacts {
    pub id: Option<Seq<char>>,
    pub title: Option<Seq<char>>,
    pub links: Seq<Seq<char>>,
    pub summary: Option<Seq<char>>,
    pub content: Option<Option<Seq<char>>>,
    pub authors: Seq<Seq<char>>,
    pub published: Option<Timestamp>,
    pub updated: Option<Timestamp>,
}

/// The entries that `feed_rs::parser::parse` reads from `xml`, or `None`
/// when it rejects the document.
pub uninterp spec fn feed_rs_entries(xml: Seq<char>) -> Option<Seq<EntryFacts>>;

/// The characters of each text of a list.
pub open spec fn texts_view(texts: Seq<String>) -> Seq<Seq<char>> {
    texts.map_values(|t: String| t@)
}

/// The content element of an entry with the characters of its body.
pub open spec fn content_view(content: Option<Option<String>>) -> Option<Option<Seq<char>>> {
    match content {
        Some(body) => Some(opt_text(body)),
        None => None,
    }
}

/// `entry` holds what `facts` says of a parsed entry.
pub open spec fn entry_fits(entry: FeedEntry, facts: EntryFacts) -> bool {
    &&& (facts.id matches Some(id) ==> entry.id@ == id)
    &&& opt_text(entry.title) == facts.title
    &&& texts_view(entry.links@) == facts.links
    &&& opt_text(entry.summary) == facts.summary
    &&& content_view(entry.content) == facts.content
    &&& texts_view(entry.authors@) == facts.authors
    &&& entry.published == facts.published
    &&& entry.updated == facts.updated
}

/// Calls `feed_rs::parser::parse` on the bytes of `xml` and moves the fields
/// of each entry into a `FeedEntry` (see `feed_rs_entry_fields`).
///
/// What comes back is named `feed_rs_entries`, but for the ids that feed-rs
/// makes up: feed-rs gives an entry without an id one made from its first
/// link and title, or a random one when it has no link. The parser looks
/// for the first `<` or `{` among the first bytes it buffers to choose between
/// XML and JSON; a text with neither anywhere is rejected. `xml` must be
/// `parser_safe`, else feed-rs may panic.
#[verifier::external_body]
fn feed_rs_parse(xml: &str) -> (parsed: Result<Vec<FeedEntry>, feed_rs::parser::ParseFeedError>)
    requires
        parser_safe(xml@),
    ensures
        parsed is Ok <==> feed_rs_entries(xml@) is Some,
        parsed matches Ok(entries) ==> entries@.len() == feed_rs_entries(xml@).unwrap().len(),
        parsed matches Ok(entries) ==> forall|i: int| 0 <= i < entries@.len() ==> entry_fits(
            #[trigger] entries@[i],
            feed_rs_entries(xml@).unwrap()[i],
        ),
        parsed matches Ok(entries) ==> forall|i: int|
            0 <= i < entries@.len() && (#[trigger] feed_rs_entries(xml@).unwrap()[i]).id is None
                ==> entries@[i].links@.len() == 0,
        !xml@.contains('<') && !xml@.contains('{') ==> parsed is Err,
{
    feed_rs::parser::parse(xml.as_bytes()).map(|feed| feed.entries.into_iter().map(feed_rs_entry_fields).collect())
}

/// Moves the fields of a parsed entry that articles are made of into a
/// `FeedEntry`: texts by their content, links by their address, authors by
/// their name, times as seconds and nanoseconds since the epoch.
#[verifier::external_body]
fn feed_rs_entry_fields(entry: feed_rs::model::Entry) -> FeedEntry {
    FeedEntry {
        id: entry.id,
        title: entry.title.map(|t| t.content),
        links: entry.links.into_iter().map(|l| l.href).collect(),
        summary: entry.summary.map(|s| s.content),
        content: entry.content.map(|c| c.body),
        authors: entry.authors.into_iter().map(|p| p.name).collect(),
        published: entry.published.map(|d| Timestamp { secs: d.timestamp(), nanos: d.timestamp_subsec_nanos() }),
        updated: entry.updated.map(|d| Timestamp { secs: d.timestamp(), nanos: d.timestamp_subsec_nanos() }),
    }
}

/// The article made from one entry.
pub fn article_from_entry(entry: &FeedEntry, feed_id: i64) -> (article: Article)
    ensures
        article@ == entry_article(*entry, feed_id),
        article@.id is None,
        article@.feed_id == feed_id,
        article@.guid == entry.id@,
        entry.title matches Some(t) ==> article@.title == t@,
        entry.title is None ==> article@.title.len() == 0,
        entry.links@.len() > 0 ==> article@.link == entry.links@[0]@,
        entry.links@.len() == 0 ==> article@.link.len() == 0,
        article@.summary == opt_text(entry.summary),
        entry.content matches Some(Some(body)) ==> article@.content == Some(body@),
        !(entry.content matches Some(Some(_))) ==> article@.content is None,
        entry.authors@.len() > 0 ==> article@.author == Some(entry.authors@[0]@),
        entry.authors@.len() == 0 ==> article@.author is None,
        entry.published is Some ==> article@.published_at == entry.published,
        entry.published is None ==> article@.published_at == entry.updated,
{
    let title = match &entry.title {
        Some(t) => t.clone(),
        None => String::new(),
    };
    let link = if entry.links.len() > 0 {
        entry.links[0].clone()
    } else {
        String::new()
    };
    let content = match &entry.content {
        Some(Some(body)) => Some(body.clone()),
        _ => None,
    };
    let author = if entry.authors.len() > 0 {
        Some(entry.authors[0].clone())
    } else {
        None
    };
    let published_at = match entry.published {
        Some(t) => Some(t),
        None => entry.updated,
    };
    Article {
        id: None,
        feed_id,
        guid: entry.id.clone(),
        title,
        link,
        summary: copy_opt_text(&entry.summary),
        content,
        author,
        published_at,
    }
}

/// The articles of a parsed feed: an error for a feed without entries, else
/// one article for each entry, in order.
pub fn articles_from_entries(entries: &Vec<FeedEntry>, feed_id: i64) -> (articles: Result<
    Vec<Article>,
    ParseError,
>)
    ensures
        entries@.len() == 0 <==> articles matches Err(ParseError::EmptyFeed),
        articles matches Ok(list) ==> list@.map_values(|a: Article| a@) == entry_articles(
            entries@,
            feed_id,
        ),
        articles is Ok || articles matches Err(ParseError::EmptyFeed),
{
    if entries.len() == 0 {
        return Err(ParseError::EmptyFeed);
    }
    let mut list: Vec<Article> = Vec::new();
    let mut i: usize = 0;
    while i < entries.len()
        invariant
            i <= entries@.len(),
            list@.len() == i,
            forall|j: int| 0 <= j < i ==> #[trigger] list@[j]@ == entry_article(entries@[j], feed_id),
        decreases entries@.len() - i,
    {
        list.push(article_from_entry(&entries[i], feed_id));
        i = i + 1;
    }
    assert(list@.map_values(|a: Article| a@) =~= entry_articles(entries@, feed_id));
    Ok(list)
}

/// The article made from an entry that feed-rs read as `facts`, with the
/// guid `guid`; as `entry_article`.
pub open spec fn facts_article(facts: EntryFacts, feed_id: i64, guid: Seq<char>) -> ArticleView {
    ArticleView {
        id: None,
        feed_id: feed_id,
        guid: guid,
        title: match facts.title {
            Some(t) => t,
            None => Seq::empty(),
        },
        link: if facts.links.len() > 0 {
            facts.links[0]
        } else {
            Seq::empty()
        },
        summary: facts.summary,
        content: match facts.content {
            Some(Some(body)) => Some(body),
            _ => None,
        },
        author: if facts.authors.len() > 0 {
            Some(facts.authors[0])
        } else {
            None
        },
        published_at: match facts.published {
            Some(t) => Some(t),
            None => facts.updated,
        },
    }
}

/// `article` is the one made from the entry read as `facts`: its guid is the
/// entry's id whenever that id follows from the document.
pub open spec fn article_fits(article: ArticleView, facts: EntryFacts, feed_id: i64) -> bool {
    &&& article == facts_article(facts, feed_id, article.guid)
    &&& (facts.id matches Some(id) ==> article.guid == id)
}

proof fn lemma_entry_article_fits(entry: FeedEntry, facts: EntryFacts, feed_id: i64)
    requires
        entry_fits(entry, facts),
    ensures
        article_fits(entry_article(entry, feed_id), facts, feed_id),
{
    assert(texts_view(entry.links@).len() == entry.links@.len());
    assert(texts_view(entry.authors@).len() == entry.authors@.len());
    if entry.links@.len() > 0 {
        assert(texts_view(entry.links@)[0] == entry.links@[0]@);
    }
    if entry.authors@.len() > 0 {
        assert(texts_view(entry.authors@)[0] == entry.authors@[0]@);
    }
}

/// What each field of an article made from a parsed entry is: the feed's
/// id, no database id, the entry's id as guid (when it follows from the
/// document), its title or "", its first link or "", its summary, the body of
/// its content, its first author, and its publication time or else its
/// update time.
pub proof fn lemma_parsed_article_fields(article: ArticleView, facts: EntryFacts, feed_id: i64)
    requires
        article_fits(article, facts, feed_id),
    ensures
        ({
            &&& article.feed_id == feed_id
            &&& article.id is None
            &&& (facts.id matches Some(id) ==> article.guid == id)
            &&& (facts.title matches Some(t) ==> article.title == t)
            &&& (facts.title is None ==> article.title.len() == 0)
            &&& (facts.links.len() > 0 ==> article.link == facts.links[0])
            &&& (facts.links.len() == 0 ==> article.link.len() == 0)
            &&& article.summary == facts.summary
            &&& (facts.content matches Some(Some(body)) ==> article.content == Some(body))
            &&& (!(facts.content matches Some(Some(_))) ==> article.content is None)
            &&& (facts.authors.len() > 0 ==> article.author == Some(facts.authors[0]))
            &&& (facts.authors.len() == 0 ==> article.author is None)
            &&& (facts.published is Some ==> article.published_at == facts.published)
            &&& (facts.published is None ==> article.published_at == facts.updated)
        }),
{
}

/// Parses a feed document (RSS, Atom or JSON Feed) into the articles of the
/// feed `feed_id`.
///
/// Fails with `InvalidFormat` exactly when feed-rs rejects the document
/// (always when it holds neither `<` nor `{`), and with `EmptyFeed` exactly
/// when the feed has no entries. Otherwise there is one article for each
/// entry, in order, made as `entry_article` makes it.
pub fn parse_feed(xml: &str, feed_id: i64) -> (articles: Result<Vec<Article>, ParseError>)
    requires
        parser_safe(xml@),
    ensures
        feed_rs_entries(xml@) is None <==> articles matches Err(ParseError::InvalidFormat(_)),
        (feed_rs_entries(xml@) is Some && feed_rs_entries(xml@).unwrap().len() == 0) <==> articles matches Err(
            ParseError::EmptyFeed,
        ),
        articles matches Ok(list) ==> list@.len() == feed_rs_entries(xml@).unwrap().len(),
        articles matches Ok(list) ==> forall|i: int|
            0 <= i < list@.len() ==> article_fits(
                (#[trigger] list@[i])@,
                feed_rs_entries(xml@).unwrap()[i],
                feed_id,
            ),
        articles matches Ok(list) ==> forall|i: int|
            0 <= i < list@.len() ==> {
                &&& (#[trigger] list@[i])@.feed_id == feed_id
                &&& list@[i]@.id is None
                &&& (feed_rs_entries(xml@).unwrap()[i].id matches Some(id) ==> list@[i]@.guid == id)
                &&& (feed_rs_entries(xml@).unwrap()[i].title matches Some(t) ==> list@[i]@.title == t)
                &&& (feed_rs_entries(xml@).unwrap()[i].title is None ==> list@[i]@.title.len() == 0)
                &&& (feed_rs_entries(xml@).unwrap()[i].links.len() > 0 ==> list@[i]@.link == feed_rs_entries(xml@).unwrap()[i].links[0])
                &&& (feed_rs_entries(xml@).unwrap()[i].links.len() == 0 ==> list@[i]@.link.len() == 0)
                &&& list@[i]@.summary == feed_rs_entries(xml@).unwrap()[i].summary
                &&& (feed_rs_entries(xml@).unwrap()[i].content matches Some(Some(body)) ==> list@[i]@.content == Some(body))
                &&& (!(feed_rs_entries(xml@).unwrap()[i].content matches Some(Some(_))) ==> list@[i]@.content is None)
                &&& (feed_rs_entries(xml@).unwrap()[i].authors.len() > 0 ==> list@[i]@.author == Some(feed_rs_entries(xml@).unwrap()[i].authors[0]))
                &&& (feed_rs_entries(xml@).unwrap()[i].authors.len() == 0 ==> list@[i]@.author is None)
                &&& (feed_rs_entries(xml@).unwrap()[i].published is Some ==> list@[i]@.published_at == feed_rs_entries(xml@).unwrap()[i].published)
                &&& (feed_rs_entries(xml@).unwrap()[i].published is None ==> list@[i]@.published_at == feed_rs_entries(xml@).unwrap()[i].updated)
            },
        !xml@.contains('<') && !xml@.contains('{') ==> articles matches Err(
            ParseError::InvalidFormat(_),
        ),
{
    let entries = match feed_rs_parse(xml) {
        Ok(entries) => entries,
        Err(e) => {
            return Err(ParseError::InvalidFormat(e));
        },
    };
    let articles = articles_from_entries(&entries, feed_id);
    if let Ok(list) = &articles {
        let ghost facts = feed_rs_entries(xml@).unwrap();
        assert(list@.map_values(|a: Article| a@).len() == entries@.len());
        assert forall|i: int| 0 <= i < list@.len() implies article_fits(
            (#[trigger] list@[i])@,
            facts[i],
            feed_id,
        ) by {
            assert(list@.map_values(|a: Article| a@)[i] == list@[i]@);
            assert(entry_articles(entries@, feed_id)[i] == entry_article(entries@[i], feed_id));
            assert(entry_fits(entries@[i], facts[i]));
            lemma_entry_article_fits(entries@[i], facts[i], feed_id);
            lemma_parsed_article_fields(list@[i]@, facts[i], feed_id);
        }
    }
    articles
}

} // verus!
