use vstd::prelude::*;
use std::collections::HashMap;

verus! {

/// How to start one server.
#[derive(Debug)]
pub struct McpServerConfig {
    pub command: String,
    pub args: Vec<String>,
    pub env: HashMap<String, String>,
    pub disabled: bool,
    /// Tools that run without asking the user.
    pub auto_approve: Vec<String>,
}

/// All configured servers, by name, in configuration order.
#[derive(Debug)]
pub struct McpConfig {
    pub mcp_servers: Vec<(String, McpServerConfig)>,
}

/// A tool that a server offers.
#[derive(Debug)]
pub struct McpTool {
    pub name: String,
    pub description: Option<String>,
    pub input_schema: serde_json::Value,
}

impl Clone for McpTool {
    fn clone(&self) -> (r: Self)
        ensures
            r == *self,
    {
        McpTool {
            name: self.name.clone(),
            description: match &self.description {
                Some(d) => Some(d.clone()),
                None => None,
            },
            input_schema: self.input_schema.clone(),
        }
    }
}

/// A tool as shown to the user, with the server that offers it.
#[derive(Debug)]
pub struct McpToolInfo {
    pub server_name: String,
    pub name: String,
    pub description: Option<String>,
    pub input_schema: serde_json::Value,
}

#[derive(Clone, Copy, Debug, PartialEq, Eq, Structural)]
pub enum ServerConnectionStatus {
    Connected,
    Disconnected,
    Error,
    Disabled,
}

/// What is known of one configured server.
#[derive(Debug)]
pub struct McpServerStatus {
    pub name: String,
    pub status: ServerConnectionStatus,
    pub tools_count: usize,
    pub error: Option<String>,
}

} // verus!
