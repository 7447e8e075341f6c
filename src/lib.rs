//! A command responder for a chat bot: it loads a table of canned replies
//! from a TOML document and answers the `!about` command with one of them.

pub mod config;
pub mod document;
pub mod responder;
