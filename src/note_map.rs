//! A map of a note collection: headings, wiki links and word counts of
//! markdown notes.

pub mod types;
pub mod parser;
pub mod ranking;
