pub mod text;
pub mod ndjson;
pub mod chat;
pub mod detect;
pub mod table;
pub mod config;
pub mod laws;
pub mod bot;
