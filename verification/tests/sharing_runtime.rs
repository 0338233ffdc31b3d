//! Refresh and shutdown of a runtime whose generations share connections.

use codex_lifecycle::runtime::generations::{McpConnectionSet, McpRuntimeError};
use codex_lifecycle::runtime::lifecycle::{empty_publication, McpRuntime};

fn set(id: u64) -> McpConnectionSet {
    McpConnectionSet { id }
}

fn shut_down(runtime: &mut McpRuntime) -> Result<(), McpRuntimeError> {
    let mut shutdown = runtime.begin_shutdown();
    while shutdown.next_target().is_some() {
        shutdown.record(Ok(()));
    }
    runtime.shutdown_confirmed(shutdown)
}

#[test]
fn lifecycle_tests_interrupted_refresh_prevents_confirmed_shutdown() {
    let mut runtime = McpRuntime::empty(set(1));
    runtime.begin_refresh().expect("refresh starts").interrupted(&mut runtime);
    assert!(runtime.ensure_refresh_confirmed().is_err());
    let error = shut_down(&mut runtime).expect_err("interrupted refresh must fail closed");
    assert!(error
        .message()
        .contains("interrupted MCP refresh left a process lifecycle unconfirmed"));
}

#[test]
fn lifecycle_tests_published_generations_are_retained_until_confirmed_shutdown() {
    let mut runtime = McpRuntime::empty(set(1));
    let original = runtime.latest_connections();
    let refresh = runtime.begin_refresh().expect("refresh starts");
    let current = empty_publication(set(2));
    let previous = refresh.publish(&mut runtime, current).expect("refresh publishes");
    assert_eq!(previous, original);
    assert!(runtime.lifecycle.retired.contains(&original));
    refresh
        .confirm(&mut runtime, previous, Ok(()))
        .expect("predecessor shutdown confirms");
    assert_eq!(runtime.latest_connections(), current.connections);
    runtime.ensure_refresh_confirmed().expect("refresh confirmed");
    shut_down(&mut runtime).expect("empty generations confirm shutdown");
}

#[test]
fn lifecycle_tests_interrupted_post_publication_cleanup_retains_predecessor_and_fails_closed() {
    let mut runtime = McpRuntime::empty(set(1));
    let original = runtime.latest_connections();
    let refresh = runtime.begin_refresh().expect("refresh starts");
    refresh
        .publish(&mut runtime, empty_publication(set(2)))
        .expect("refresh publishes");
    refresh.interrupted(&mut runtime);
    shut_down(&mut runtime).expect_err("abandoned predecessor cleanup must fail closed");
    assert!(runtime.lifecycle.refresh_tainted);
    assert!(!runtime.lifecycle.refresh_in_progress);
    assert!(runtime.lifecycle.retired.contains(&original));
}

#[test]
fn lifecycle_tests_successful_refresh_does_not_clear_earlier_lifecycle_uncertainty() {
    let mut runtime = McpRuntime::empty(set(1));
    runtime.begin_refresh().expect("first refresh starts").interrupted(&mut runtime);
    let refresh = runtime.begin_refresh().expect("later refresh allowed for cleanup");
    let current = empty_publication(set(2));
    let previous = refresh.publish(&mut runtime, current).expect("refresh publishes");
    refresh
        .confirm(&mut runtime, previous, Ok(()))
        .expect("predecessor shutdown confirms");
    assert!(runtime.ensure_refresh_confirmed().is_err());
    shut_down(&mut runtime).expect_err("later success must not erase earlier uncertainty");
}

#[test]
fn shutdown_blocks_publication_and_retains_an_already_constructed_generation() {
    let mut runtime = McpRuntime::empty(set(1));
    let refresh = runtime.begin_refresh().expect("refresh starts");
    shut_down(&mut runtime).expect_err("in-progress construction must fail closed");
    let current = empty_publication(set(2));
    assert!(refresh.publish(&mut runtime, current).is_err());
    assert!(runtime.lifecycle.retired.contains(&current.connections));
    refresh.interrupted(&mut runtime);
    assert!(runtime.begin_refresh().is_err());
}

#[test]
fn use_is_rejected_with_the_reason() {
    let mut runtime = McpRuntime::empty(set(1));
    assert_eq!(runtime.ensure_refresh_confirmed(), Ok(()));
    let refresh = runtime.begin_refresh().expect("refresh");
    assert_eq!(
        runtime.ensure_refresh_confirmed().map_err(|error| error.message()),
        Err("MCP runtime refresh cleanup could not be confirmed".to_string())
    );
    refresh.confirm(&mut runtime, set(9), Ok(())).expect("nothing was replaced");
    let _ = runtime.begin_shutdown();
    assert_eq!(
        runtime.ensure_refresh_confirmed(),
        Err(McpRuntimeError::ShutdownStarted)
    );
}

#[test]
fn replaced_connections_that_do_not_stop_keep_their_generation() {
    let mut runtime = McpRuntime::empty(set(1));
    let refresh = runtime.begin_refresh().expect("refresh");
    let previous = refresh
        .publish(&mut runtime, empty_publication(set(2)))
        .expect("publication");
    let error = refresh
        .confirm(&mut runtime, previous, Err("still running".to_string()))
        .expect_err("still running");
    assert_eq!(error.message(), "still running");
    assert_eq!(runtime.lifecycle.retired, vec![set(1)]);
    assert!(runtime.lifecycle.refresh_tainted);
}
