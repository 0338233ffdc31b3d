//! Which tools count as execution.

use crate::required_execution::{
    executes, is_browser_action, is_browser_execution, is_browser_flat_name, is_browser_namespace,
    is_execution, namespace_text, ResponseItem,
};
use vstd::prelude::*;

verus! {

/// A browser's actions are these six names, its namespace is one of two, and a flat name is one
/// that starts with such a namespace and two underscores.
pub proof fn browser_names_are_these(name: Seq<char>)
    ensures
        is_browser_action(name) <==> name == "snapshot"@ || name == "navigate"@ || name == "click"@
            || name == "type"@ || name == "press"@ || name == "scroll"@,
        is_browser_namespace(name) <==> name == "mcp__instafy_personal_browser"@ || name
            == "mcp__instafy_shared_browser"@,
        is_browser_flat_name(name) <==> "mcp__instafy_personal_browser__"@.is_prefix_of(name)
            || "mcp__instafy_shared_browser__"@.is_prefix_of(name),
{
}

/// Every tool in the namespace of an MCP server other than the browsers counts, whatever its name.
pub proof fn every_tool_of_another_mcp_server_executes(namespace: Seq<char>, name: Seq<char>)
    requires
        "mcp__"@.is_prefix_of(namespace),
        namespace != "mcp__instafy_personal_browser"@,
        namespace != "mcp__instafy_shared_browser"@,
    ensures
        is_execution(Some(namespace), name),
{
}

/// Every tool whose own name starts as an MCP tool's, and not as a browser tool's, counts, whatever
/// its namespace.
pub proof fn every_flat_tool_of_another_mcp_server_executes(
    namespace: Option<Seq<char>>,
    name: Seq<char>,
)
    requires
        "mcp__"@.is_prefix_of(name),
        !"mcp__instafy_personal_browser__"@.is_prefix_of(name),
        !"mcp__instafy_shared_browser__"@.is_prefix_of(name),
    ensures
        is_execution(namespace, name),
{
}

/// Outside the namespaces of MCP servers a flat browser tool counts exactly where what follows the
/// browser's namespace is one of the six actions.
pub proof fn flat_browser_tools_execute_only_actions(
    namespace: Option<Seq<char>>,
    tool: Seq<char>,
)
    requires
        namespace matches Some(namespace) ==> !"mcp__"@.is_prefix_of(namespace),
    ensures
        is_execution(namespace, "mcp__instafy_personal_browser__"@ + tool) <==> is_action(tool),
        is_execution(namespace, "mcp__instafy_shared_browser__"@ + tool) <==> is_action(tool),
        is_browser_execution(namespace, "mcp__instafy_personal_browser__"@ + tool) <==> is_action(
            tool,
        ),
        is_browser_execution(namespace, "mcp__instafy_shared_browser__"@ + tool) <==> is_action(
            tool,
        ),
{
    reveal_literals();
    let personal = "mcp__instafy_personal_browser__"@;
    let shared = "mcp__instafy_shared_browser__"@;
    let first = personal + tool;
    let second = shared + tool;
    assert(first.skip(personal.len() as int) =~= tool);
    assert(second.skip(shared.len() as int) =~= tool);
    assert(personal.is_prefix_of(first));
    assert(shared.is_prefix_of(second));
    assert(first[13] == 'p' && shared[13] == 's');
    assert(second[13] == 's' && personal[13] == 'p');
    assert(first[0] == 'm' && second[0] == 'm');
    assert(!shared.is_prefix_of(first)) by {
        if shared.is_prefix_of(first) {
            assert(first.take(shared.len() as int)[13] == shared[13]);
        }
    }
    assert(!personal.is_prefix_of(second)) by {
        if personal.is_prefix_of(second) {
            assert(second.take(personal.len() as int)[13] == personal[13]);
        }
    }
    if let Some(namespace) = namespace {
        namespaces_without_prefix_are_no_browser(namespace);
    }
}

/// In a browser's namespace a tool counts exactly where it is one of the six actions, or where its
/// own name is that of a tool of another MCP server.
pub proof fn tools_in_a_browser_namespace(namespace: Seq<char>, name: Seq<char>)
    requires
        namespace == "mcp__instafy_personal_browser"@ || namespace
            == "mcp__instafy_shared_browser"@,
    ensures
        is_browser_execution(Some(namespace), name) <==> is_action(name),
        is_execution(Some(namespace), name) <==> is_action(name) || ("mcp__"@.is_prefix_of(name)
            && !"mcp__instafy_personal_browser__"@.is_prefix_of(name)
            && !"mcp__instafy_shared_browser__"@.is_prefix_of(name)),
{
    reveal_literals();
    assert(namespace[0] == 'm');
}

/// Tools without an MCP name count exactly where they are one of the five built-in ones and have
/// no namespace, or the one of functions.
pub proof fn plain_tools_execute_only_when_built_in(
    namespace: Option<Seq<char>>,
    name: Seq<char>,
)
    requires
        !"mcp__"@.is_prefix_of(name),
        namespace matches Some(namespace) ==> !"mcp__"@.is_prefix_of(namespace),
    ensures
        is_execution(namespace, name) <==> {
            &&& namespace is None || namespace == Some("functions"@)
            &&& name == "apply_patch"@ || name == "exec_command"@ || name == "shell"@ || name
                == "shell_command"@ || name == "write_stdin"@
        },
{
    reveal_literals();
    let personal = "mcp__instafy_personal_browser__"@;
    let shared = "mcp__instafy_shared_browser__"@;
    if personal.is_prefix_of(name) {
        prefix_of_prefix("mcp__"@, personal, name);
    }
    if shared.is_prefix_of(name) {
        prefix_of_prefix("mcp__"@, shared, name);
    }
    if let Some(namespace) = namespace {
        namespaces_without_prefix_are_no_browser(namespace);
    }
}

/// A local shell call is execution; a function call and a custom tool call are by their tool; no
/// other item is.
pub proof fn items_execute_by_their_tool(item: ResponseItem)
    ensures
        match item {
            ResponseItem::LocalShellCall => executes(item),
            ResponseItem::FunctionCall { name, namespace: None }
            | ResponseItem::CustomToolCall { name, namespace: None } => executes(item)
                == is_execution(None, name@),
            ResponseItem::FunctionCall { name, namespace: Some(namespace) }
            | ResponseItem::CustomToolCall { name, namespace: Some(namespace) } => executes(item)
                == is_execution(Some(namespace@), name@),
            _ => !executes(item),
        },
{
}

/// A namespace is there exactly where it was given, and reads as given.
pub proof fn namespaces_read_as_given(namespace: Option<&str>)
    ensures
        namespace_text(namespace) is Some <==> namespace is Some,
        namespace matches Some(text) ==> namespace_text(namespace) == Some(text@),
{
}

/// One of a browser's six actions.
pub open spec fn is_action(name: Seq<char>) -> bool {
    ||| name == "snapshot"@
    ||| name == "navigate"@
    ||| name == "click"@
    ||| name == "type"@
    ||| name == "press"@
    ||| name == "scroll"@
}

proof fn prefix_of_prefix(first: Seq<char>, second: Seq<char>, text: Seq<char>)
    requires
        first.is_prefix_of(second),
        second.is_prefix_of(text),
    ensures
        first.is_prefix_of(text),
{
    assert(first =~= text.take(first.len() as int));
}

proof fn namespaces_without_prefix_are_no_browser(namespace: Seq<char>)
    requires
        !"mcp__"@.is_prefix_of(namespace),
    ensures
        namespace != "mcp__instafy_personal_browser"@,
        namespace != "mcp__instafy_shared_browser"@,
{
    reveal_strlit("mcp__");
    reveal_strlit("mcp__instafy_personal_browser");
    reveal_strlit("mcp__instafy_shared_browser");
    assert("mcp__"@ =~= "mcp__instafy_personal_browser"@.take(5));
    assert("mcp__"@ =~= "mcp__instafy_shared_browser"@.take(5));
}

proof fn reveal_literals()
    ensures
        "mcp__"@ == seq!['m', 'c', 'p', '_', '_'],
        "mcp__instafy_personal_browser"@.len() == 29,
        "mcp__instafy_shared_browser"@.len() == 27,
        "mcp__instafy_personal_browser"@[0] == 'm',
        "mcp__instafy_shared_browser"@[0] == 'm',
        "mcp__instafy_personal_browser__"@.len() == 31,
        "mcp__instafy_shared_browser__"@.len() == 29,
        "mcp__instafy_personal_browser__"@[0] == 'm',
        "mcp__instafy_shared_browser__"@[0] == 'm',
        "mcp__instafy_personal_browser__"@[13] == 'p',
        "mcp__instafy_shared_browser__"@[13] == 's',
        "mcp__"@.is_prefix_of("mcp__instafy_personal_browser__"@),
        "mcp__"@.is_prefix_of("mcp__instafy_shared_browser__"@),
        "functions"@[0] == 'f',
        "apply_patch"@[0] == 'a',
        "exec_command"@[0] == 'e',
        "shell"@[0] == 's',
        "shell_command"@[0] == 's',
        "write_stdin"@[0] == 'w',
{
    reveal_strlit("mcp__");
    reveal_strlit("functions");
    reveal_strlit("mcp__instafy_personal_browser");
    reveal_strlit("mcp__instafy_shared_browser");
    reveal_strlit("mcp__instafy_personal_browser__");
    reveal_strlit("mcp__instafy_shared_browser__");
    reveal_strlit("apply_patch");
    reveal_strlit("exec_command");
    reveal_strlit("shell");
    reveal_strlit("shell_command");
    reveal_strlit("write_stdin");
    assert("mcp__"@ =~= seq!['m', 'c', 'p', '_', '_']);
    assert("mcp__"@ =~= "mcp__instafy_personal_browser__"@.take(5));
    assert("mcp__"@ =~= "mcp__instafy_shared_browser__"@.take(5));
}

} // verus!
