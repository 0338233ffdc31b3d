//! Refresh and shutdown of a runtime whose generations stop as a whole.

use codex_lifecycle::runtime::generations::{
    McpConnectionSet, McpRuntimeError, McpRuntimeShutdown,
};
use codex_lifecycle::runtime::McpRuntime;

fn set(id: u64) -> McpConnectionSet {
    McpConnectionSet { id }
}

/// Stops every generation; those in `failing` report a failure.
fn stop_all(shutdown: &mut McpRuntimeShutdown, failing: &[(u64, &str)]) -> Vec<u64> {
    let mut stopped = Vec::new();
    while let Some(connections) = shutdown.next_target() {
        stopped.push(connections.id);
        let outcome = match failing.iter().find(|(id, _)| *id == connections.id) {
            Some((_, reason)) => Err(reason.to_string()),
            None => Ok(()),
        };
        shutdown.record(outcome);
    }
    stopped
}

fn shut_down(runtime: &mut McpRuntime, failing: &[(u64, &str)]) -> Result<(), McpRuntimeError> {
    let mut shutdown = runtime.begin_shutdown();
    stop_all(&mut shutdown, failing);
    runtime.shutdown_confirmed(shutdown)
}

#[test]
fn runtime_interrupted_refresh_prevents_confirmed_shutdown() {
    let mut runtime = McpRuntime::new(set(1));
    let refresh = runtime.begin_refresh().expect("refresh should start before shutdown");

    refresh.interrupted(&mut runtime);

    let error = shut_down(&mut runtime, &[]).expect_err("an interrupted refresh must fail closed");
    assert!(error
        .message()
        .contains("interrupted MCP refresh left a process lifecycle unconfirmed"));
}

#[test]
fn runtime_published_generations_are_retained_until_confirmed_shutdown() {
    let original = set(1);
    let mut runtime = McpRuntime::new(original);
    let publication = runtime
        .begin_refresh()
        .expect("refresh should start")
        .publish(&mut runtime, set(2))
        .expect("refresh should publish");
    let published = publication.connections();

    assert_eq!(runtime.snapshot(), published);
    assert!(runtime.lifecycle.retired.contains(&original));
    publication
        .confirm(&mut runtime, Ok(()))
        .expect("previous empty generation should confirm shutdown");
    assert!(runtime.lifecycle.retired.is_empty());
    shut_down(&mut runtime, &[]).expect("empty generations should confirm shutdown");
}

#[test]
fn runtime_interrupted_post_publication_cleanup_retains_predecessor_and_fails_closed() {
    let original = set(1);
    let mut runtime = McpRuntime::new(original);
    let publication = runtime
        .begin_refresh()
        .expect("refresh should start")
        .publish(&mut runtime, set(2))
        .expect("refresh should publish");

    publication.interrupted(&mut runtime);

    let error =
        shut_down(&mut runtime, &[]).expect_err("abandoned predecessor cleanup must fail closed");
    assert!(error
        .message()
        .contains("interrupted MCP refresh left a process lifecycle unconfirmed"));
    assert!(runtime.lifecycle.refresh_tainted);
    assert!(!runtime.lifecycle.refresh_in_progress);
    assert!(runtime.lifecycle.retired.contains(&original));
}

#[test]
fn runtime_successful_refresh_does_not_clear_earlier_lifecycle_uncertainty() {
    let mut runtime = McpRuntime::new(set(1));
    runtime.begin_refresh().expect("first refresh should start").interrupted(&mut runtime);

    runtime
        .begin_refresh()
        .expect("later refresh should still be allowed for cleanup")
        .publish(&mut runtime, set(2))
        .expect("later refresh should publish")
        .confirm(&mut runtime, Ok(()))
        .expect("later predecessor shutdown should confirm");

    let error =
        shut_down(&mut runtime, &[]).expect_err("later success must not erase earlier uncertainty");
    assert!(error
        .message()
        .contains("interrupted MCP refresh left a process lifecycle unconfirmed"));
}

#[test]
fn a_second_refresh_is_refused_and_taints() {
    let mut runtime = McpRuntime::new(set(1));
    let refresh = runtime.begin_refresh().expect("first refresh");
    match runtime.begin_refresh() {
        Err(error) => {
            assert_eq!(error, McpRuntimeError::RefreshInProgress);
            assert_eq!(error.message(), "another MCP runtime refresh is already in progress");
        }
        Ok(_) => panic!("one refresh at a time"),
    }
    assert!(runtime.lifecycle.refresh_tainted);
    assert!(runtime.lifecycle.refresh_in_progress);
    refresh.interrupted(&mut runtime);
    assert!(!runtime.lifecycle.refresh_in_progress);
}

#[test]
fn shutdown_refuses_refreshes_and_publications() {
    let mut runtime = McpRuntime::new(set(1));
    let refresh = runtime.begin_refresh().expect("refresh");
    let error = shut_down(&mut runtime, &[]).expect_err("construction is under way");
    assert_eq!(
        error.message(),
        "MCP runtime shutdown could not be confirmed: an MCP refresh remains in progress, so its process lifecycle is unconfirmed"
    );
    match refresh.publish(&mut runtime, set(2)) {
        Err(error) => {
            assert_eq!(error, McpRuntimeError::ShutdownBeforePublication);
            assert_eq!(error.message(), "MCP runtime shutdown started before refresh publication");
        }
        Ok(_) => panic!("nothing is published after the shutdown started"),
    }
    assert_eq!(runtime.snapshot(), set(1));
    match runtime.begin_refresh() {
        Err(error) => {
            assert_eq!(error, McpRuntimeError::ShutdownStarted);
            assert_eq!(error.message(), "MCP runtime shutdown has already started");
        }
        Ok(_) => panic!("no refresh after the shutdown started"),
    }
}

#[test]
fn a_publication_without_a_refresh_in_progress_is_refused() {
    let mut runtime = McpRuntime::new(set(1));
    let refresh = runtime.begin_refresh().expect("refresh");
    runtime.lifecycle.interrupt_refresh();
    match refresh.publish(&mut runtime, set(2)) {
        Err(error) => {
            assert_eq!(error, McpRuntimeError::LifecycleLost);
            assert_eq!(error.message(), "MCP runtime refresh publication lost its lifecycle");
        }
        Ok(_) => panic!("the refresh was interrupted"),
    }
}

#[test]
fn failing_generations_are_named_in_order_and_stay_registered() {
    let mut runtime = McpRuntime::new(set(1));
    for next in [2, 3] {
        let publication = runtime
            .begin_refresh()
            .expect("refresh")
            .publish(&mut runtime, set(next))
            .expect("publication");
        let error = publication
            .confirm(&mut runtime, Err(format!("{} is stuck", next - 1)))
            .expect_err("the predecessor is stuck");
        assert_eq!(
            error.message(),
            format!("previous MCP generation shutdown could not be confirmed: {} is stuck", next - 1)
        );
    }
    let error = shut_down(&mut runtime, &[(3, "no"), (2, "never")]).expect_err("two are stuck");
    assert_eq!(
        error.message(),
        "MCP runtime shutdown could not be confirmed: an interrupted MCP refresh left a process lifecycle unconfirmed; current generation: no; retired generation 1: never"
    );
    assert_eq!(runtime.lifecycle.retired, vec![set(1), set(2)]);
    let mut again = runtime.begin_shutdown();
    assert_eq!(stop_all(&mut again, &[]), vec![3, 1, 2]);
}

#[test]
fn a_retired_generation_that_is_current_is_stopped_once() {
    let mut runtime = McpRuntime::new(set(1));
    let publication = runtime
        .begin_refresh()
        .expect("refresh")
        .publish(&mut runtime, set(1))
        .expect("publication");
    publication.confirm(&mut runtime, Err("busy".to_string())).expect_err("busy");
    let mut shutdown = runtime.begin_shutdown();
    assert_eq!(stop_all(&mut shutdown, &[]), vec![1]);
}

#[test]
fn a_confirmed_shutdown_leaves_no_generation() {
    let mut runtime = McpRuntime::new(set(1));
    runtime
        .begin_refresh()
        .expect("refresh")
        .publish(&mut runtime, set(2))
        .expect("publication")
        .confirm(&mut runtime, Ok(()))
        .expect("confirmed");
    let mut shutdown = runtime.begin_shutdown();
    assert_eq!(stop_all(&mut shutdown, &[]), vec![2]);
    runtime.shutdown_confirmed(shutdown).expect("all stopped");
    assert!(runtime.lifecycle.retired.is_empty());
    assert!(runtime.begin_refresh().is_err());
}
