pub mod article;
pub mod feed;

pub use article::{Article, ArticleView, Timestamp};
pub use feed::{Feed, FeedView};
