//! Where an MCP server runs, and which HTTP client reaches it.

use crate::http_client::request::ReqwestHttpClient;
use crate::text::same_text;
use vstd::prelude::*;
use vstd::string::*;

verus! {

/// The environment of a server that names none.
pub const DEFAULT_MCP_SERVER_ENVIRONMENT_ID: &'static str = "local";

/// A handle on an execution environment.
#[derive(Clone, Copy, Debug, PartialEq, Eq, Structural)]
pub struct Environment {
    pub id: u64,
}

/// The environments that a session knows, by name.
pub struct EnvironmentManager {
    pub environments: Vec<(String, Environment)>,
}

/// The environment of the first entry with this name.
pub open spec fn named_environment(
    environments: Seq<(String, Environment)>,
    name: Seq<char>,
) -> Option<Environment>
    decreases environments.len(),
{
    if environments.len() == 0 {
        None
    } else if environments[0].0@ == name {
        Some(environments[0].1)
    } else {
        named_environment(environments.skip(1), name)
    }
}

impl EnvironmentManager {
    /// A manager that knows no environment.
    pub fn without_environments() -> (manager: Self)
        ensures
            manager.environments@.len() == 0,
    {
        EnvironmentManager { environments: Vec::new() }
    }

    /// Looks an environment up by its name.
    pub fn get_environment(&self, name: &str) -> (environment: Option<Environment>)
        ensures
            environment == named_environment(self.environments@, name@),
    {
        let mut i: usize = 0;
        assert(self.environments@.skip(0) =~= self.environments@);
        while i < self.environments.len()
            invariant
                i <= self.environments@.len(),
                named_environment(self.environments@, name@) == named_environment(
                    self.environments@.skip(i as int),
                    name@,
                ),
            decreases self.environments@.len() - i,
        {
            let ghost rest = self.environments@.skip(i as int);
            assert(rest[0] == self.environments@[i as int]);
            assert(rest.skip(1) =~= self.environments@.skip(i + 1));
            if same_text(self.environments[i].0.as_str(), name) {
                return Some(self.environments[i].1);
            }
            i += 1;
        }
        None
    }
}

/// How an MCP server is reached.
#[derive(Clone, Debug, PartialEq, Eq)]
pub enum McpServerTransportConfig {
    /// A process, with the directory that it runs in.
    Stdio { cwd: Option<String> },
    StreamableHttp { url: String },
}

/// The configuration of an MCP server, as far as it decides where the server runs.
#[derive(Clone, Debug, PartialEq, Eq)]
pub struct McpServerConfig {
    pub environment_id: String,
    pub transport: McpServerTransportConfig,
}

impl McpServerConfig {
    /// The server runs on this machine.
    pub fn is_local_environment(&self) -> (local: bool)
        ensures
            local == (self.environment_id@ == DEFAULT_MCP_SERVER_ENVIRONMENT_ID@),
    {
        same_text(self.environment_id.as_str(), DEFAULT_MCP_SERVER_ENVIRONMENT_ID)
    }
}

/// The known environments, and the directory in which a local server without one of its own runs.
pub struct McpRuntimeContext {
    pub environment_manager: EnvironmentManager,
    pub local_stdio_fallback_cwd: String,
}

/// The HTTP client for a server.
pub enum HttpClientChoice {
    /// The client of this process.
    Ambient(ReqwestHttpClient),
    /// The client that the environment owns.
    Owned(Environment),
}

/// Where the server runs: in the environment that its configuration names, or, for a local HTTP
/// server without one, in none. Other servers without an environment are an error.
pub open spec fn server_environment(
    environments: Seq<(String, Environment)>,
    server_name: Seq<char>,
    config: McpServerConfig,
) -> Result<Option<Environment>, Seq<char>> {
    match named_environment(environments, config.environment_id@) {
        Some(environment) => Ok(Some(environment)),
        None => if config.environment_id@ == DEFAULT_MCP_SERVER_ENVIRONMENT_ID@ {
            match config.transport {
                McpServerTransportConfig::Stdio { .. } => Err(
                    "local stdio MCP server `"@ + server_name + "` requires a local environment"@,
                ),
                McpServerTransportConfig::StreamableHttp { .. } => Ok(None),
            }
        } else {
            Err(
                "MCP server `"@ + server_name + "` references unknown environment id `"@
                    + config.environment_id@ + "`"@,
            )
        },
    }
}

impl McpRuntimeContext {
    /// A context over these environments.
    pub fn new(environment_manager: EnvironmentManager, local_stdio_fallback_cwd: String) -> (context:
        Self)
        ensures
            context.environment_manager == environment_manager,
            context.local_stdio_fallback_cwd == local_stdio_fallback_cwd,
    {
        McpRuntimeContext { environment_manager, local_stdio_fallback_cwd }
    }

    /// The directory in which a local server without one of its own runs.
    pub fn local_stdio_fallback_cwd(&self) -> (cwd: String)
        ensures
            cwd@ == self.local_stdio_fallback_cwd@,
    {
        self.local_stdio_fallback_cwd.clone()
    }

    /// Resolves the environment that a server runs in.
    pub fn resolve_server_environment(&self, server_name: &str, config: &McpServerConfig) -> (resolved:
        Result<Option<Environment>, String>)
        ensures
            match resolved {
                Ok(environment) => server_environment(
                    self.environment_manager.environments@,
                    server_name@,
                    *config,
                ) == Ok::<Option<Environment>, Seq<char>>(environment),
                Err(message) => server_environment(
                    self.environment_manager.environments@,
                    server_name@,
                    *config,
                ) == Err::<Option<Environment>, Seq<char>>(message@),
            },
    {
        if let Some(environment) = self.environment_manager.get_environment(
            config.environment_id.as_str(),
        ) {
            return Ok(Some(environment));
        }
        if config.is_local_environment() {
            return match &config.transport {
                McpServerTransportConfig::Stdio { .. } => {
                    let mut message = "local stdio MCP server `".to_string();
                    message.append(server_name);
                    message.append("` requires a local environment");
                    Err(message)
                },
                McpServerTransportConfig::StreamableHttp { .. } => Ok(None),
            };
        }
        let mut message = "MCP server `".to_string();
        message.append(server_name);
        message.append("` references unknown environment id `");
        message.append(config.environment_id.as_str());
        message.append("`");
        Err(message)
    }

    /// Resolves the HTTP client of the environment that a server runs in. A server outside every
    /// environment is reached by the client of this process.
    pub fn resolve_http_client(&self, server_name: &str, config: &McpServerConfig) -> (resolved: Result<
        HttpClientChoice,
        String,
    >)
        ensures
            match resolved {
                Ok(HttpClientChoice::Owned(environment)) => server_environment(
                    self.environment_manager.environments@,
                    server_name@,
                    *config,
                ) == Ok::<Option<Environment>, Seq<char>>(Some(environment)),
                Ok(HttpClientChoice::Ambient(_)) => server_environment(
                    self.environment_manager.environments@,
                    server_name@,
                    *config,
                ) == Ok::<Option<Environment>, Seq<char>>(None),
                Err(message) => server_environment(
                    self.environment_manager.environments@,
                    server_name@,
                    *config,
                ) == Err::<Option<Environment>, Seq<char>>(message@),
            },
    {
        match self.resolve_server_environment(server_name, config) {
            Ok(Some(environment)) => Ok(HttpClientChoice::Owned(environment)),
            Ok(None) => Ok(HttpClientChoice::Ambient(ReqwestHttpClient)),
            Err(message) => Err(message),
        }
    }
}

/// A server without a known environment is reached only where it is local and speaks HTTP, and
/// then by the client of this process.
pub proof fn only_local_http_needs_no_environment(
    environments: Seq<(String, Environment)>,
    server_name: Seq<char>,
    config: McpServerConfig,
)
    ensures
        server_environment(environments, server_name, config) == Ok::<
            Option<Environment>,
            Seq<char>,
        >(None) <==> {
            &&& named_environment(environments, config.environment_id@) is None
            &&& config.environment_id@ == DEFAULT_MCP_SERVER_ENVIRONMENT_ID@
            &&& config.transport is StreamableHttp
        },
{
}

} // verus!
