//! Core logic of a note-taking assistant: a resumable state-graph engine,
//! markdown note indexing, layered chat prompts, page flow, font caching and
//! the bookkeeping of tool servers.

pub mod langgraph;
pub mod typesetting;
pub mod text;
pub mod note_map;
pub mod messages;
pub mod mcp;
