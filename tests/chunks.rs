use lumina::messages::{detect_reminder_needed, ChatChunks, Message, MessageRole, EDIT_FAILED_REMINDER};

#[test]
fn test_chat_chunks_basic() {
    let chunks = ChatChunks::new("你是一个 AI 助手".to_string())
        .with_task("帮我看看笔记".to_string());

    let messages = chunks.to_messages();
    assert_eq!(messages.len(), 2); // system + task
    assert_eq!(messages[0].role, MessageRole::System);
    assert_eq!(messages[1].role, MessageRole::User);
}

#[test]
fn test_chat_chunks_with_note_map() {
    let chunks = ChatChunks::new("你是一个 AI 助手".to_string())
        .with_note_map("笔记结构...".to_string())
        .with_task("帮我看看笔记".to_string());

    let messages = chunks.to_messages();
    assert_eq!(messages.len(), 4); // system + note_map(2) + task
}

#[test]
fn all_layers_come_in_order() {
    let history = vec![Message {
        role: MessageRole::Assistant,
        content: "earlier".to_string(),
        name: Some("bot".to_string()),
        tool_call_id: None,
    }];
    let mut chunks = ChatChunks::new("sys".to_string())
        .with_note_map("map".to_string())
        .with_current_note("a.md".to_string(), "first\nsecond".to_string())
        .with_history(history)
        .with_task("do it".to_string())
        .with_reminder("careful".to_string());
    chunks.add_tool_result("ok".to_string());
    let m = chunks.to_messages();
    assert_eq!(m.len(), 9);
    assert_eq!(m[0].content, "sys");
    assert_eq!(
        m[1].content,
        "以下是笔记库的结构摘要，请先了解。如需查看具体内容，请使用工具。\n\nmap"
    );
    assert_eq!(m[2].role, MessageRole::Assistant);
    assert_eq!(
        m[3].content,
        "当前正在编辑的笔记（你可以直接使用 edit_note 编辑）：\n\n文件：a.md\n---\n   1 | first\n   2 | second\n---"
    );
    assert_eq!(m[4].role, MessageRole::Assistant);
    assert_eq!(m[5].content, "earlier");
    assert_eq!(m[5].name, Some("bot".to_string()));
    assert_eq!(m[6].content, "do it");
    assert_eq!(m[7].content, "[工具执行结果]\nok");
    assert_eq!(m[8].content, "[系统提醒] careful");
    assert_eq!(m[8].role, MessageRole::User);
}

#[test]
fn current_note_needs_path_and_content() {
    let mut chunks = ChatChunks::new("sys".to_string()).with_task("t".to_string());
    chunks.current_note_path = Some("a.md".to_string());
    assert_eq!(chunks.to_messages().len(), 2);
}

#[test]
fn line_numbers_widen_past_four_digits() {
    let mut body = String::new();
    for _ in 0..10000 {
        body.push_str("x\n");
    }
    let chunks = ChatChunks::new("s".to_string()).with_current_note("p".to_string(), body);
    let m = chunks.to_messages();
    assert!(m[1].content.contains("\n9999 | x\n10000 | x\n---"));
    assert!(m[1].content.contains("---\n   1 | x\n"));
}

#[test]
fn reminder_after_missing_match() {
    assert_eq!(
        detect_reminder_needed(Some("edit failed: old_string not found")),
        Some(EDIT_FAILED_REMINDER.to_string())
    );
    assert_eq!(
        detect_reminder_needed(Some("text not found in file x")),
        Some(EDIT_FAILED_REMINDER.to_string())
    );
    assert_eq!(detect_reminder_needed(Some("permission denied")), None);
    assert_eq!(detect_reminder_needed(None), None);
}
