//! Installation and shutdown of a session's connection managers.

use codex_lifecycle::services::{McpConnectionManager, SessionServices};

fn manager(id: u64) -> McpConnectionManager {
    McpConnectionManager { id }
}

fn shut_down(
    services: &mut SessionServices,
    failing: &[(u64, &str)],
) -> (Vec<u64>, Result<(), String>) {
    let report = |id: u64| match failing.iter().find(|(failing, _)| *failing == id) {
        Some((_, reason)) => Err(reason.to_string()),
        None => Ok(()),
    };
    let active = services.begin_shutdown();
    let mut stopped = vec![active.manager().id];
    let active_report = report(active.manager().id);
    let mut shutdown = services.stop_retired(active, active_report);
    while let Some(retired) = shutdown.next_manager() {
        stopped.push(retired.id);
        shutdown.record(report(retired.id));
    }
    assert!(services.is_shutdown_current(&shutdown));
    (stopped, services.shutdown_mcp_connection_managers_confirmed(shutdown))
}

#[test]
fn a_replaced_manager_is_forgotten_once_it_confirms() {
    let mut services = SessionServices::new(manager(1));
    let previous = services.begin_install(manager(2));
    assert_eq!(previous, manager(1));
    assert_eq!(services.mcp_connection_manager, manager(2));
    assert_eq!(services.mcp_connection_manager_lifecycle.retired, vec![manager(1)]);
    assert_eq!(services.install_mcp_connection_manager(previous, Ok(())), Ok(manager(2)));
    assert!(services.mcp_connection_manager_lifecycle.retired.is_empty());
    assert_eq!(shut_down(&mut services, &[]), (vec![2], Ok(())));
}

#[test]
fn a_manager_that_does_not_stop_is_stopped_again_by_every_shutdown() {
    let mut services = SessionServices::new(manager(1));
    let previous = services.begin_install(manager(2));
    assert_eq!(
        services.install_mcp_connection_manager(previous, Err("busy".to_string())),
        Err("busy".to_string())
    );
    let previous = services.begin_install(manager(3));
    assert_eq!(
        services.install_mcp_connection_manager(previous, Err("busy too".to_string())),
        Err("busy too".to_string())
    );
    let (stopped, confirmed) = shut_down(&mut services, &[(2, "stuck"), (3, "gone wild")]);
    assert_eq!(stopped, vec![3, 1, 2]);
    assert_eq!(
        confirmed,
        Err(
            "MCP manager shutdown could not be confirmed: active manager: gone wild; retired manager: stuck"
                .to_string()
        )
    );
    assert_eq!(services.mcp_connection_manager_lifecycle.retired, vec![manager(2)]);
    assert_eq!(shut_down(&mut services, &[]), (vec![3, 2], Ok(())));
    assert!(services.mcp_connection_manager_lifecycle.retired.is_empty());
}

#[test]
fn an_installation_that_is_not_ended_keeps_the_predecessor() {
    let mut services = SessionServices::new(manager(1));
    services.begin_install(manager(2));
    assert_eq!(shut_down(&mut services, &[]), (vec![2, 1], Ok(())));
}

#[test]
fn refresh_marks_keep_every_shutdown_unconfirmed() {
    let mut services = SessionServices::new(manager(1));
    services.mcp_connection_manager_lifecycle.refresh_in_progress = true;
    services.mcp_connection_manager_lifecycle.refresh_tainted = true;
    let previous = services.begin_install(manager(2));
    services.install_mcp_connection_manager(previous, Ok(())).expect("installed");
    for _ in 0..2 {
        let (stopped, confirmed) = shut_down(&mut services, &[]);
        assert_eq!(stopped, vec![2]);
        assert_eq!(
            confirmed,
            Err(
                "MCP manager shutdown could not be confirmed: an MCP refresh remains in progress or was interrupted before its full process lifecycle was confirmed; an earlier MCP refresh left an unregistered process lifecycle unconfirmed"
                    .to_string()
            )
        );
    }
}

#[test]
fn a_shutdown_that_is_given_up_keeps_every_manager() {
    let mut services = SessionServices::new(manager(1));
    services.begin_install(manager(2));
    let active = services.begin_shutdown();
    let mut shutdown = services.stop_retired(active, Ok(()));
    assert_eq!(shutdown.next_manager(), Some(manager(1)));
    shutdown.record(Err("stuck".to_string()));
    drop(shutdown);
    assert_eq!(services.mcp_connection_manager_lifecycle.retired, vec![manager(1)]);
    let (stopped, confirmed) = shut_down(&mut services, &[(1, "still stuck")]);
    assert_eq!(stopped, vec![2, 1]);
    assert_eq!(
        confirmed,
        Err(
            "MCP manager shutdown could not be confirmed: retired manager: still stuck".to_string()
        )
    );
}

#[test]
fn a_shutdown_is_outdated_by_an_installation() {
    let mut services = SessionServices::new(manager(1));
    let active = services.begin_shutdown();
    let shutdown = services.stop_retired(active, Ok(()));
    assert!(services.is_shutdown_current(&shutdown));
    let previous = services.begin_install(manager(2));
    assert!(!services.is_shutdown_current(&shutdown));
    services.install_mcp_connection_manager(previous, Ok(())).expect("installed");
    assert!(!services.is_shutdown_current(&shutdown));
}
