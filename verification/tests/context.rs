//! Where MCP servers run.

use codex_lifecycle::runtime::context::{
    Environment, EnvironmentManager, HttpClientChoice, McpRuntimeContext, McpServerConfig,
    McpServerTransportConfig, DEFAULT_MCP_SERVER_ENVIRONMENT_ID,
};

fn stdio_server(environment_id: &str) -> McpServerConfig {
    McpServerConfig {
        environment_id: environment_id.to_string(),
        transport: McpServerTransportConfig::Stdio { cwd: None },
    }
}

fn http_server(environment_id: &str) -> McpServerConfig {
    McpServerConfig {
        environment_id: environment_id.to_string(),
        transport: McpServerTransportConfig::StreamableHttp {
            url: "http://127.0.0.1:1".to_string(),
        },
    }
}

fn context_with(environments: Vec<(String, Environment)>) -> McpRuntimeContext {
    McpRuntimeContext::new(EnvironmentManager { environments }, "/tmp".to_string())
}

#[test]
fn local_stdio_requires_local_stdio_availability() {
    let runtime_context = McpRuntimeContext::new(
        EnvironmentManager::without_environments(),
        "/tmp".to_string(),
    );

    let error = match runtime_context
        .resolve_server_environment("stdio", &stdio_server(DEFAULT_MCP_SERVER_ENVIRONMENT_ID))
    {
        Ok(_) => panic!("local stdio MCP should require a local environment"),
        Err(error) => error,
    };
    assert_eq!(error, "local stdio MCP server `stdio` requires a local environment");
}

#[test]
fn local_http_does_not_require_local_stdio_availability() {
    let runtime_context = McpRuntimeContext::new(
        EnvironmentManager::without_environments(),
        "/tmp".to_string(),
    );

    let resolved_runtime = match runtime_context
        .resolve_server_environment("http", &http_server(DEFAULT_MCP_SERVER_ENVIRONMENT_ID))
    {
        Ok(resolved_runtime) => resolved_runtime,
        Err(error) => panic!("local HTTP MCP should resolve: {error}"),
    };
    assert!(resolved_runtime.is_none());
}

#[test]
fn unknown_explicit_environment_is_rejected() {
    let runtime_context = McpRuntimeContext::new(
        EnvironmentManager::without_environments(),
        "/tmp".to_string(),
    );

    let error = match runtime_context.resolve_server_environment("stdio", &stdio_server("remote")) {
        Ok(_) => panic!("unknown MCP environment should fail"),
        Err(error) => error,
    };
    assert_eq!(error, "MCP server `stdio` references unknown environment id `remote`");
}

#[test]
fn explicit_remote_stdio_and_http_accept_named_environment() {
    let runtime_context = context_with(vec![("remote".to_string(), Environment { id: 7 })]);

    let mut remote_stdio = stdio_server("remote");
    remote_stdio.transport = McpServerTransportConfig::Stdio { cwd: Some("/tmp".to_string()) };
    for resolved_runtime in [
        runtime_context.resolve_server_environment("stdio", &remote_stdio),
        runtime_context.resolve_server_environment("http", &http_server("remote")),
    ] {
        let resolved_runtime = match resolved_runtime {
            Ok(resolved_runtime) => resolved_runtime,
            Err(error) => panic!("remote MCP should resolve: {error}"),
        };
        assert!(resolved_runtime.is_some());
    }
}

#[test]
fn remote_stdio_accepts_foreign_absolute_cwd() {
    let runtime_context = context_with(vec![("remote".to_string(), Environment { id: 7 })]);
    let mut remote_stdio = stdio_server("remote");
    remote_stdio.transport = McpServerTransportConfig::Stdio {
        cwd: Some("file:///C:/plugins/demo".to_string()),
    };

    let resolved_runtime = match runtime_context.resolve_server_environment("stdio", &remote_stdio)
    {
        Ok(resolved_runtime) => resolved_runtime,
        Err(error) => panic!("foreign cwd should resolve: {error}"),
    };
    assert!(resolved_runtime.is_some());
}

#[test]
fn local_stdio_accepts_local_environment_when_available() {
    let runtime_context = context_with(vec![("local".to_string(), Environment { id: 1 })]);

    let resolved_runtime = match runtime_context
        .resolve_server_environment("stdio", &stdio_server(DEFAULT_MCP_SERVER_ENVIRONMENT_ID))
    {
        Ok(resolved_runtime) => resolved_runtime,
        Err(error) => panic!("local stdio MCP should resolve: {error}"),
    };
    assert!(resolved_runtime.is_some());
}

#[test]
fn the_first_environment_of_a_name_is_taken() {
    let context = context_with(vec![
        ("other".to_string(), Environment { id: 1 }),
        ("remote".to_string(), Environment { id: 2 }),
        ("remote".to_string(), Environment { id: 3 }),
    ]);
    assert_eq!(
        context.resolve_server_environment("s", &http_server("remote")),
        Ok(Some(Environment { id: 2 }))
    );
    assert_eq!(context.local_stdio_fallback_cwd(), "/tmp");
}

#[test]
fn http_clients_follow_the_environment() {
    let context = context_with(vec![("remote".to_string(), Environment { id: 2 })]);
    assert!(matches!(
        context.resolve_http_client("s", &http_server("remote")),
        Ok(HttpClientChoice::Owned(Environment { id: 2 }))
    ));
    assert!(matches!(
        context.resolve_http_client("s", &http_server("local")),
        Ok(HttpClientChoice::Ambient(_))
    ));
    match context.resolve_http_client("s", &stdio_server("local")) {
        Err(error) => {
            assert_eq!(error, "local stdio MCP server `s` requires a local environment")
        }
        Ok(_) => panic!("a local process needs an environment"),
    }
    match context.resolve_http_client("s", &http_server("nowhere")) {
        Err(error) => {
            assert_eq!(error, "MCP server `s` references unknown environment id `nowhere`")
        }
        Ok(_) => panic!("the environment is unknown"),
    }
}
