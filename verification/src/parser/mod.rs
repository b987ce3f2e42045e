pub mod rss;
pub mod safety;
pub mod scan;
