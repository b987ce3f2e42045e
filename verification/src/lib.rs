//! A terminal news reader: feed parsing, storage rules and the reader's
//! key handling, with their contracts proved by Verus.

pub mod config;
pub mod domain;
pub mod fetcher;
pub mod parser;
pub mod storage;
pub mod ui;
