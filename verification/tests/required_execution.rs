//! Which response items count as execution.

use codex_lifecycle::required_execution::{
    is_execution_tool_name, is_instafy_browser_execution_tool, is_instafy_browser_flat_tool_name,
    is_instafy_browser_namespace, is_instafy_required_execution_tool, ResponseItem,
};

#[test]
fn browser_actions_count_in_both_spellings() {
    for action in ["snapshot", "navigate", "click", "type", "press", "scroll"] {
        for browser in ["mcp__instafy_personal_browser", "mcp__instafy_shared_browser"] {
            assert!(is_instafy_browser_execution_tool(Some(browser), action));
            assert!(is_execution_tool_name(Some(browser), action));
            let flat = format!("{browser}__{action}");
            assert!(is_instafy_browser_execution_tool(None, &flat));
            assert!(is_execution_tool_name(None, &flat));
            assert!(is_execution_tool_name(Some("functions"), &flat));
        }
    }
}

#[test]
fn other_browser_tools_do_not_count() {
    for browser in ["mcp__instafy_personal_browser", "mcp__instafy_shared_browser"] {
        for tool in ["status", "snapshots", "", "exec_command"] {
            assert!(!is_execution_tool_name(Some(browser), tool));
            assert!(!is_execution_tool_name(None, &format!("{browser}__{tool}")));
        }
        assert!(!is_instafy_browser_execution_tool(Some(browser), &format!("{browser}__click")));
    }
}

#[test]
fn browser_names_are_exact() {
    assert!(is_instafy_browser_namespace("mcp__instafy_personal_browser"));
    assert!(is_instafy_browser_namespace("mcp__instafy_shared_browser"));
    assert!(!is_instafy_browser_namespace("mcp__instafy_shared_browser__"));
    assert!(!is_instafy_browser_namespace("mcp__instafy_browser"));
    assert!(is_instafy_browser_flat_tool_name("mcp__instafy_personal_browser__x"));
    assert!(is_instafy_browser_flat_tool_name("mcp__instafy_shared_browser__"));
    assert!(!is_instafy_browser_flat_tool_name("mcp__instafy_shared_browser"));
}

#[test]
fn other_mcp_tools_count() {
    assert!(is_execution_tool_name(Some("mcp__files"), "anything"));
    assert!(is_execution_tool_name(None, "mcp__files__read"));
    assert!(is_execution_tool_name(Some("other"), "mcp__files__read"));
    assert!(is_execution_tool_name(Some("mcp__instafy_shared_browser"), "mcp__files__read"));
    assert!(!is_execution_tool_name(Some("mcp_files"), "read"));
}

#[test]
fn built_in_tools_count_without_a_namespace_or_in_the_functions_one() {
    for tool in ["apply_patch", "exec_command", "shell", "shell_command", "write_stdin"] {
        assert!(is_execution_tool_name(None, tool));
        assert!(is_execution_tool_name(Some("functions"), tool));
        assert!(!is_execution_tool_name(Some("other"), tool));
    }
    assert!(!is_execution_tool_name(None, "update_plan"));
}

#[test]
fn items_count_by_their_tool() {
    assert!(is_instafy_required_execution_tool(&ResponseItem::LocalShellCall));
    assert!(is_instafy_required_execution_tool(&ResponseItem::FunctionCall {
        name: "shell".to_string(),
        namespace: None,
    }));
    assert!(is_instafy_required_execution_tool(&ResponseItem::CustomToolCall {
        name: "click".to_string(),
        namespace: Some("mcp__instafy_shared_browser".to_string()),
    }));
    assert!(!is_instafy_required_execution_tool(&ResponseItem::CustomToolCall {
        name: "click".to_string(),
        namespace: None,
    }));
    for item in [
        ResponseItem::AdditionalTools,
        ResponseItem::Message,
        ResponseItem::AgentMessage,
        ResponseItem::Reasoning,
        ResponseItem::ToolSearchCall,
        ResponseItem::FunctionCallOutput,
        ResponseItem::CustomToolCallOutput,
        ResponseItem::ToolSearchOutput,
        ResponseItem::WebSearchCall,
        ResponseItem::ImageGenerationCall,
        ResponseItem::Compaction,
        ResponseItem::ConfigurationUpdate,
        ResponseItem::CompactionTrigger,
        ResponseItem::ContextCompaction,
        ResponseItem::Other,
    ] {
        assert!(!is_instafy_required_execution_tool(&item));
    }
}
