# codex_lifecycle

Confirmed ownership of the processes behind a coding-agent session, verified with Verus.

- `src/runtime` - the generations of MCP connections that a thread has published: refresh,
  publication, and a terminal shutdown that is confirmed only where every generation is gone.
- `src/guardian` - guardian review sessions: startups behind an admission lock, and a shutdown that
  reaches the reviews which were registered late.
- `src/services` - the connection managers of a session.
- `src/http_client` - `http/request` calls: parameters, headers, the choice between the proxied and
  the direct client, streamed bodies.
- `src/required_execution` - which response items count as execution.
- `app` - the concurrent shell: locks, futures, drop guards and the network.

Operations that wait are cut where they wait. A token stands for the work in between (a refresh, a
publication, a startup); dropping it in `app` hands it to its `interrupted` method.
