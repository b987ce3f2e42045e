pub mod app;
pub mod text;
