//! Where servers run.

use crate::runtime::context::{
    named_environment, server_environment, Environment, McpServerConfig, McpServerTransportConfig,
};
use vstd::prelude::*;

verus! {

/// The entry at `i` is the first with this name.
pub open spec fn is_first_named(
    environments: Seq<(String, Environment)>,
    name: Seq<char>,
    i: int,
) -> bool {
    &&& 0 <= i < environments.len()
    &&& environments[i].0@ == name
    &&& forall|j: int| 0 <= j < i ==> (#[trigger] environments[j]).0@ != name
}

/// A lookup finds the first entry with the name, and nothing exactly where no entry has it.
pub proof fn lookups_find_the_first_entry(
    environments: Seq<(String, Environment)>,
    name: Seq<char>,
)
    ensures
        match named_environment(environments, name) {
            Some(environment) => exists|i: int| #[trigger]
                is_first_named(environments, name, i) && environments[i].1 == environment,
            None => forall|i: int|
                0 <= i < environments.len() ==> (#[trigger] environments[i]).0@ != name,
        },
        forall|i: int| #[trigger]
            is_first_named(environments, name, i) ==> named_environment(environments, name)
                == Some(environments[i].1),
    decreases environments.len(),
{
    if environments.len() > 0 && environments[0].0@ != name {
        let rest = environments.skip(1);
        lookups_find_the_first_entry(rest, name);
        match named_environment(rest, name) {
            Some(environment) => {
                let j = choose|j: int| #[trigger]
                    is_first_named(rest, name, j) && rest[j].1 == environment;
                assert forall|k: int| 0 <= k < j + 1 implies (
                #[trigger] environments[k]).0@ != name by {
                    if k > 0 {
                        assert(rest[k - 1] == environments[k]);
                    }
                }
                assert(rest[j] == environments[j + 1]);
                assert(is_first_named(environments, name, j + 1));
            },
            None => {
                assert forall|i: int| 0 <= i < environments.len() implies (
                #[trigger] environments[i]).0@ != name by {
                    if i > 0 {
                        assert(rest[i - 1] == environments[i]);
                    }
                }
            },
        }
        assert forall|i: int| #[trigger] is_first_named(environments, name, i) implies named_environment(
            environments,
            name,
        ) == Some(environments[i].1) by {
            assert(i > 0);
            assert forall|k: int| 0 <= k < i - 1 implies (#[trigger] rest[k]).0@ != name by {
                assert(rest[k] == environments[k + 1]);
            }
            assert(rest[i - 1] == environments[i]);
            assert(is_first_named(rest, name, i - 1));
        }
    } else if environments.len() > 0 {
        assert(is_first_named(environments, name, 0));
        assert forall|i: int| #[trigger] is_first_named(environments, name, i) implies i == 0 by {
            if i > 0 {
                assert(environments[0].0@ != name);
            }
        }
    }
}

/// Whatever its transport and its name, a server whose environment is known runs in it: in the one
/// that the first entry with the configured name holds, and in no other.
pub proof fn servers_run_where_they_are_configured(
    environments: Seq<(String, Environment)>,
    server_name: Seq<char>,
    config: McpServerConfig,
    environment: Environment,
)
    ensures
        server_environment(environments, server_name, config) == Ok::<
            Option<Environment>,
            Seq<char>,
        >(Some(environment)) <==> exists|i: int| #[trigger]
            is_first_named(environments, config.environment_id@, i) && environments[i].1
                == environment,
{
    lookups_find_the_first_entry(environments, config.environment_id@);
}

/// A server whose environment is not known runs in none where it is local and speaks HTTP. The
/// others are refused: a local process, which needs a local environment, and every server that
/// names another environment. The message names the server as given, and the environment.
pub proof fn servers_without_an_environment(
    environments: Seq<(String, Environment)>,
    server_name: Seq<char>,
    config: McpServerConfig,
)
    requires
        forall|i: int|
            0 <= i < environments.len() ==> (#[trigger] environments[i]).0@
                != config.environment_id@,
    ensures
        config.environment_id@ == "local"@ && config.transport is StreamableHttp
            ==> server_environment(environments, server_name, config) == Ok::<
            Option<Environment>,
            Seq<char>,
        >(None),
        config.environment_id@ == "local"@ && config.transport is Stdio ==> server_environment(
            environments,
            server_name,
            config,
        ) == Err::<Option<Environment>, Seq<char>>(
            "local stdio MCP server `"@ + server_name + "` requires a local environment"@,
        ),
        config.environment_id@ != "local"@ ==> server_environment(environments, server_name, config)
            == Err::<Option<Environment>, Seq<char>>(
            "MCP server `"@ + server_name + "` references unknown environment id `"@
                + config.environment_id@ + "`"@,
        ),
{
    lookups_find_the_first_entry(environments, config.environment_id@);
}

/// Where a server runs depends on the environments, its configured environment and the kind of its
/// transport alone, not on the transport's details; and only the text of a refusal depends on its
/// name.
pub proof fn transport_details_do_not_place_servers(
    environments: Seq<(String, Environment)>,
    first_name: Seq<char>,
    second_name: Seq<char>,
    first: McpServerConfig,
    second: McpServerConfig,
)
    requires
        first.environment_id@ == second.environment_id@,
        first.transport is Stdio <==> second.transport is Stdio,
    ensures
        server_environment(environments, first_name, first) is Ok <==> server_environment(
            environments,
            second_name,
            second,
        ) is Ok,
        server_environment(environments, first_name, first) is Ok ==> server_environment(
            environments,
            first_name,
            first,
        ) == server_environment(environments, second_name, second),
        server_environment(environments, first_name, first) == server_environment(
            environments,
            first_name,
            second,
        ),
{
}

} // verus!
