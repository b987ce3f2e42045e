pub mod repository;
pub mod schema;
pub mod sqlite;
pub mod timefmt;
