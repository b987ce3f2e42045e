use vstd::prelude::*;

use crate::domain::article::opt_text;

verus! {

/// A subscribed news source.
#[derive(Debug, Clone)]
pub struct Feed {
    pub id: Option<i64>,
    pub name: String,
    pub url: String,
    pub category: Option<String>,
    pub country: Option<String>,
}

/// A feed with its texts taken as sequences of characters.
pub struct FeedView {
    pub id: Option<i64>,
    pub name: Seq<char>,
    pub url: Seq<char>,
    pub category: Option<Seq<char>>,
    pub country: Option<Seq<char>>,
}

impl View for Feed {
    type V = FeedView;

    open spec fn view(&self) -> FeedView {
        FeedView {
            id: self.id,
            name: self.name@,
            url: self.url@,
            category: opt_text(self.category),
            country: opt_text(self.country),
        }
    }
}

} // verus!
