//! Which response items count as a concrete execution-tool action of a turn.

use crate::text::{optional_text, same_text, starts_with, strip_prefix};
use vstd::prelude::*;

verus! {

/// What a model answered: of each item, as much as decides whether it executes something.
#[derive(Clone, Debug, PartialEq, Eq)]
pub enum ResponseItem {
    LocalShellCall,
    FunctionCall { name: String, namespace: Option<String> },
    CustomToolCall { name: String, namespace: Option<String> },
    AdditionalTools,
    Message,
    AgentMessage,
    Reasoning,
    ToolSearchCall,
    FunctionCallOutput,
    CustomToolCallOutput,
    ToolSearchOutput,
    WebSearchCall,
    ImageGenerationCall,
    Compaction,
    ConfigurationUpdate,
    CompactionTrigger,
    ContextCompaction,
    Other,
}

/// A browser tool of this name acts on the page.
pub open spec fn is_browser_action(name: Seq<char>) -> bool {
    ||| name == "snapshot"@
    ||| name == "navigate"@
    ||| name == "click"@
    ||| name == "type"@
    ||| name == "press"@
    ||| name == "scroll"@
}

/// The namespace is one of the two browsers'.
pub open spec fn is_browser_namespace(namespace: Seq<char>) -> bool {
    namespace == "mcp__instafy_personal_browser"@ || namespace == "mcp__instafy_shared_browser"@
}

/// What follows `prefix` in `name` is a browser action.
pub open spec fn is_prefixed_browser_action(prefix: Seq<char>, name: Seq<char>) -> bool {
    prefix.is_prefix_of(name) && is_browser_action(name.skip(prefix.len() as int))
}

/// The name holds the namespace of one of the two browsers.
pub open spec fn is_browser_flat_name(name: Seq<char>) -> bool {
    "mcp__instafy_personal_browser__"@.is_prefix_of(name)
        || "mcp__instafy_shared_browser__"@.is_prefix_of(name)
}

/// The tool is a browser action: its namespace is a browser's and its name an action, or it has
/// no such namespace and its name holds both.
pub open spec fn is_browser_execution(namespace: Option<Seq<char>>, name: Seq<char>) -> bool {
    match namespace {
        Some(namespace) if is_browser_namespace(namespace) => is_browser_action(name),
        _ => is_prefixed_browser_action("mcp__instafy_personal_browser__"@, name)
            || is_prefixed_browser_action("mcp__instafy_shared_browser__"@, name),
    }
}

/// The tool is one of the built-in ones that change the workspace.
pub open spec fn is_builtin_execution(namespace: Option<Seq<char>>, name: Seq<char>) -> bool {
    &&& namespace is None || namespace == Some("functions"@)
    &&& {
        ||| name == "apply_patch"@
        ||| name == "exec_command"@
        ||| name == "shell"@
        ||| name == "shell_command"@
        ||| name == "write_stdin"@
    }
}

/// The tool belongs to an MCP server other than the browsers, by its namespace or by its name.
pub open spec fn is_mcp_execution(namespace: Option<Seq<char>>, name: Seq<char>) -> bool {
    ||| (namespace matches Some(namespace) && "mcp__"@.is_prefix_of(namespace)
        && !is_browser_namespace(namespace))
    ||| ("mcp__"@.is_prefix_of(name) && !is_browser_flat_name(name))
}

/// The tool counts as execution.
pub open spec fn is_execution(namespace: Option<Seq<char>>, name: Seq<char>) -> bool {
    ||| is_browser_execution(namespace, name)
    ||| is_mcp_execution(namespace, name)
    ||| is_builtin_execution(namespace, name)
}

/// The text of an optional name.
pub open spec fn namespace_text(namespace: Option<&str>) -> Option<Seq<char>> {
    match namespace {
        Some(namespace) => Some(namespace@),
        None => None,
    }
}

/// The item is a concrete execution-tool action.
pub open spec fn executes(item: ResponseItem) -> bool {
    match item {
        ResponseItem::LocalShellCall => true,
        ResponseItem::FunctionCall { name, namespace }
        | ResponseItem::CustomToolCall { name, namespace } => is_execution(
            optional_text(namespace),
            name@,
        ),
        _ => false,
    }
}

fn is_browser_action_name(name: &str) -> (found: bool)
    ensures
        found == is_browser_action(name@),
{
    same_text(name, "snapshot") || same_text(name, "navigate") || same_text(name, "click")
        || same_text(name, "type") || same_text(name, "press") || same_text(name, "scroll")
}

/// Decides whether a response item is a concrete execution-tool action.
pub fn is_instafy_required_execution_tool(item: &ResponseItem) -> (found: bool)
    ensures
        found == executes(*item),
{
    match item {
        ResponseItem::LocalShellCall => true,
        ResponseItem::FunctionCall { name, namespace }
        | ResponseItem::CustomToolCall { name, namespace } => {
            let namespace = match namespace {
                Some(namespace) => Some(namespace.as_str()),
                None => None,
            };
            is_execution_tool_name(namespace, name.as_str())
        },
        ResponseItem::AdditionalTools
        | ResponseItem::Message
        | ResponseItem::AgentMessage
        | ResponseItem::Reasoning
        | ResponseItem::ToolSearchCall
        | ResponseItem::FunctionCallOutput
        | ResponseItem::CustomToolCallOutput
        | ResponseItem::ToolSearchOutput
        | ResponseItem::WebSearchCall
        | ResponseItem::ImageGenerationCall
        | ResponseItem::Compaction
        | ResponseItem::ConfigurationUpdate
        | ResponseItem::CompactionTrigger
        | ResponseItem::ContextCompaction
        | ResponseItem::Other => false,
    }
}

/// Decides whether a tool is a browser action.
pub fn is_instafy_browser_execution_tool(namespace: Option<&str>, name: &str) -> (found: bool)
    ensures
        found == is_browser_execution(namespace_text(namespace), name@),
{
    if let Some(namespace) = namespace {
        if is_instafy_browser_namespace(namespace) {
            return is_browser_action_name(name);
        }
    }
    is_prefixed_browser_action_name("mcp__instafy_personal_browser__", name)
        || is_prefixed_browser_action_name("mcp__instafy_shared_browser__", name)
}

fn is_prefixed_browser_action_name(prefix: &str, name: &str) -> (found: bool)
    ensures
        found == is_prefixed_browser_action(prefix@, name@),
{
    match strip_prefix(name, prefix) {
        Some(tail) => {
            assert(name@.skip(prefix@.len() as int) =~= tail@);
            assert(prefix@.is_prefix_of(name@));
            is_browser_action_name(tail)
        },
        None => false,
    }
}

/// Decides whether a namespace is one of the two browsers'.
pub fn is_instafy_browser_namespace(namespace: &str) -> (found: bool)
    ensures
        found == is_browser_namespace(namespace@),
{
    same_text(namespace, "mcp__instafy_personal_browser")
        || same_text(namespace, "mcp__instafy_shared_browser")
}

/// Decides whether a tool name holds the namespace of one of the two browsers.
pub fn is_instafy_browser_flat_tool_name(name: &str) -> (found: bool)
    ensures
        found == is_browser_flat_name(name@),
{
    starts_with(name, "mcp__instafy_personal_browser__")
        || starts_with(name, "mcp__instafy_shared_browser__")
}

/// Decides whether a tool counts as execution.
pub fn is_execution_tool_name(namespace: Option<&str>, name: &str) -> (found: bool)
    ensures
        found == is_execution(namespace_text(namespace), name@),
{
    if is_instafy_browser_execution_tool(namespace, name) {
        return true;
    }
    if let Some(namespace) = namespace {
        if starts_with(namespace, "mcp__") && !is_instafy_browser_namespace(namespace) {
            return true;
        }
    }
    if starts_with(name, "mcp__") && !is_instafy_browser_flat_tool_name(name) {
        return true;
    }
    let builtin = match namespace {
        Some(namespace) => same_text(namespace, "functions"),
        None => true,
    };
    builtin && (same_text(name, "apply_patch") || same_text(name, "exec_command") || same_text(
        name,
        "shell",
    ) || same_text(name, "shell_command") || same_text(name, "write_stdin"))
}

/// A browser tool counts as execution exactly where it is an action, whether the browser's
/// namespace stands beside the name or in it. (A name that itself starts as an MCP tool's is
/// judged as such.)
pub proof fn browser_tools_execute_only_actions(namespace: Seq<char>, name: Seq<char>)
    requires
        is_browser_namespace(namespace),
        !"mcp__"@.is_prefix_of(name),
    ensures
        is_execution(Some(namespace), name) <==> is_browser_action(name),
        is_execution(None, namespace + "__"@ + name) <==> is_browser_action(name),
{
    reveal_strlit("mcp__");
    reveal_strlit("__");
    reveal_strlit("functions");
    reveal_strlit("mcp__instafy_personal_browser");
    reveal_strlit("mcp__instafy_shared_browser");
    reveal_strlit("mcp__instafy_personal_browser__");
    reveal_strlit("mcp__instafy_shared_browser__");
    reveal_strlit("apply_patch");
    reveal_strlit("exec_command");
    reveal_strlit("shell");
    reveal_strlit("shell_command");
    reveal_strlit("write_stdin");
    let personal = "mcp__instafy_personal_browser__"@;
    let shared = "mcp__instafy_shared_browser__"@;
    let flat = namespace + "__"@ + name;
    assert(namespace[0] == 'm' && namespace[5] == 'i');
    assert(flat[0] == 'm');
    if namespace == "mcp__instafy_personal_browser"@ {
        assert(namespace + "__"@ =~= personal);
        assert(flat.skip(personal.len() as int) =~= name);
        assert(flat[13] == 'p' && shared[13] == 's');
        assert(personal.is_prefix_of(flat));
    } else {
        assert(namespace + "__"@ =~= shared);
        assert(flat.skip(shared.len() as int) =~= name);
        assert(flat[13] == 's' && personal[13] == 'p');
        assert(shared.is_prefix_of(flat));
    }
}

} // verus!
