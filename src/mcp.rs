//! Bookkeeping of Model Context Protocol servers: their configuration,
//! connected clients, tools and auto-approved tool names.

pub mod types;
pub mod manager;
