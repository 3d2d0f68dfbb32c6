use lumina::mcp::manager::McpManager;
use lumina::mcp::types::{McpConfig, McpServerConfig, McpTool, ServerConnectionStatus};
use std::collections::HashMap;
use std::sync::Arc;

#[test]
fn test_mcp_tool_name_format() {
    // 格式: mcp_{server_name}__{tool_name}
    let full_name = "mcp_filesystem__read_file";

    let name_without_prefix = full_name.strip_prefix("mcp_").unwrap();
    let parts: Vec<&str> = name_without_prefix.splitn(2, "__").collect();

    assert_eq!(parts.len(), 2);
    assert_eq!(parts[0], "filesystem");
    assert_eq!(parts[1], "read_file");
}

#[test]
fn test_mcp_tool_name_with_hyphen_server() {
    let full_name = "mcp_brave-search__web_search";

    let name_without_prefix = full_name.strip_prefix("mcp_").unwrap();
    let parts: Vec<&str> = name_without_prefix.splitn(2, "__").collect();

    assert_eq!(parts[0], "brave-search");
    assert_eq!(parts[1], "web_search");
}

#[test]
fn test_mcp_tool_name_with_underscore_tool() {
    let full_name = "mcp_postgres__execute_query";

    let name_without_prefix = full_name.strip_prefix("mcp_").unwrap();
    let parts: Vec<&str> = name_without_prefix.splitn(2, "__").collect();

    assert_eq!(parts[0], "postgres");
    assert_eq!(parts[1], "execute_query");
}

#[test]
fn test_auto_approve_check() {
    let config = McpServerConfig {
        command: "test".to_string(),
        args: vec![],
        env: HashMap::new(),
        disabled: false,
        auto_approve: vec!["read_file".to_string(), "list_directory".to_string()],
    };

    assert!(config.auto_approve.contains(&"read_file".to_string()));
    assert!(config.auto_approve.contains(&"list_directory".to_string()));
    assert!(!config.auto_approve.contains(&"write_file".to_string()));
}

fn server(disabled: bool, approve: &[&str]) -> McpServerConfig {
    McpServerConfig {
        command: "cmd".to_string(),
        args: vec![],
        env: HashMap::new(),
        disabled,
        auto_approve: approve.iter().map(|s| s.to_string()).collect(),
    }
}

fn tool(name: &str) -> McpTool {
    McpTool { name: name.to_string(), description: None, input_schema: serde_json::Value::Null }
}

#[test]
fn manager_tracks_servers_tools_and_approvals() {
    let mut m: McpManager<String> = McpManager::new();
    assert!(!m.is_initialized());
    assert_eq!(m.workspace_path(), None);
    assert!(m.list_servers().is_empty());
    let config = McpConfig {
        mcp_servers: vec![
            ("fs".to_string(), server(false, &["read_file"])),
            ("off".to_string(), server(true, &[])),
            ("web".to_string(), server(false, &[])),
        ],
    };
    let to_start = m.begin_init("/ws".to_string(), Some(config));
    assert_eq!(to_start, vec!["fs".to_string(), "web".to_string()]);
    assert!(m.is_initialized());
    assert_eq!(m.workspace_path(), Some("/ws"));
    assert!(m.is_auto_approved("fs", "read_file"));
    assert!(!m.is_auto_approved("fs", "write_file"));
    assert!(!m.is_auto_approved("web", "read_file"));
    assert!(m.server_config("off").unwrap().disabled);
    assert_eq!(m.server_config("nope").unwrap_err(), "Server 'nope' not found in config");

    m.insert_client("fs".to_string(), Arc::new("client-fs".to_string()), vec![tool("read_file"), tool("list")]);
    let st = m.list_servers();
    assert_eq!(st.len(), 3);
    assert_eq!(st[0].status, ServerConnectionStatus::Connected);
    assert_eq!(st[0].tools_count, 2);
    assert_eq!(st[1].status, ServerConnectionStatus::Disabled);
    assert_eq!(st[2].status, ServerConnectionStatus::Disconnected);
    let tools = m.get_all_tools();
    assert_eq!(tools.len(), 2);
    assert_eq!(tools[0].0, "fs");
    assert_eq!(tools[1].1.name, "list");
    assert_eq!(m.get_client("fs").as_deref(), Some(&"client-fs".to_string()));

    let infos = m.tool_infos(Some("fs"));
    assert_eq!(infos.len(), 2);
    assert_eq!(infos[0].server_name, "fs");
    assert_eq!(infos[1].name, "list");
    assert!(m.tool_infos(Some("web")).is_empty());
    assert_eq!(m.tool_infos(None).len(), 2);

    let removed = m.remove_client("fs");
    assert_eq!(removed.as_deref(), Some(&"client-fs".to_string()));
    assert!(m.get_client("fs").is_none());
    assert_eq!(m.list_servers()[0].status, ServerConnectionStatus::Disconnected);
    m.insert_client("web".to_string(), Arc::new("w".to_string()), vec![]);
    assert_eq!(m.take_clients().len(), 1);
    assert!(m.get_all_tools().is_empty());
}

#[test]
fn init_without_config_starts_nothing() {
    let mut m: McpManager<()> = McpManager::new();
    assert!(m.begin_init("/w".to_string(), None).is_empty());
    assert!(m.is_initialized());
    assert!(m.list_servers().is_empty());
    assert!(m.server_config("x").is_err());
}
