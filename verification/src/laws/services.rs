//! Installation and shutdown of a session's connection managers.

use crate::sequences::without_keeps_the_others;
use crate::services::{
    failing_managers, leading_failures, reported_reason, retired_failures, ManagerShutdownState,
    McpConnectionManager, ServicesState, SessionServices,
};
use vstd::prelude::*;

verus! {

/// A session shows its active manager, the retired ones and the marks of its refreshes.
pub proof fn sessions_show_their_fields(services: SessionServices)
    ensures
        services@.active == services.mcp_connection_manager,
        services@.retired == services.mcp_connection_manager_lifecycle.retired@,
        services@.refresh_in_progress
            == services.mcp_connection_manager_lifecycle.refresh_in_progress,
        services@.refresh_tainted == services.mcp_connection_manager_lifecycle.refresh_tainted,
{
}

/// A new session has its manager and nothing else. An installation makes the new manager the
/// active one and retires the former one behind the others, and leaves the marks.
pub proof fn installations_retire_the_former_manager(
    services: ServicesState,
    manager: McpConnectionManager,
)
    ensures
        ServicesState::fresh(manager).active == manager,
        ServicesState::fresh(manager).retired.len() == 0,
        !ServicesState::fresh(manager).refresh_in_progress,
        !ServicesState::fresh(manager).refresh_tainted,
        services.replaced_by(manager).active == manager,
        services.replaced_by(manager).retired == services.retired.push(services.active),
        services.replaced_by(manager).refresh_in_progress == services.refresh_in_progress,
        services.replaced_by(manager).refresh_tainted == services.refresh_tainted,
{
}

/// A predecessor that confirms is no longer retired, and the others stay; one that does not changes
/// nothing. The active manager and the marks stay either way.
pub proof fn confirmed_predecessors_are_forgotten(
    services: ServicesState,
    previous: McpConnectionManager,
    other: McpConnectionManager,
    stopped: bool,
)
    ensures
        services.predecessor_reported(previous, stopped).active == services.active,
        services.predecessor_reported(previous, stopped).refresh_in_progress
            == services.refresh_in_progress,
        services.predecessor_reported(previous, stopped).refresh_tainted
            == services.refresh_tainted,
        services.predecessor_reported(previous, true).retired.contains(other) <==> other != previous
            && services.retired.contains(other),
        services.predecessor_reported(previous, false).retired == services.retired,
        services.tracks(other) <==> services.active == other || services.retired.contains(other),
{
    without_keeps_the_others(services.retired, previous, other);
}

/// The managers that a confirmation leaves keep their order.
pub proof fn confirmed_predecessors_leave_the_order(
    services: ServicesState,
    previous: McpConnectionManager,
    last: McpConnectionManager,
)
    ensures
        services.retired.len() == 0 ==> services.predecessor_reported(previous, true).retired.len()
            == 0,
        last == previous ==> (ServicesState {
            retired: services.retired.push(last),
            ..services
        }).predecessor_reported(previous, true).retired == services.predecessor_reported(
            previous,
            true,
        ).retired,
        last != previous ==> (ServicesState {
            retired: services.retired.push(last),
            ..services
        }).predecessor_reported(previous, true).retired == services.predecessor_reported(
            previous,
            true,
        ).retired.push(last),
{
    assert(services.retired.push(last).drop_last() =~= services.retired);
}

/// What a shutdown fails for before a retired manager reported: a refresh in progress, a tainted
/// one, and the active manager, in this order.
pub proof fn manager_shutdowns_fail_for_marks_and_the_active_manager(
    in_progress: bool,
    tainted: bool,
    active_failure: Option<Seq<char>>,
)
    ensures
        leading_failures(in_progress, tainted, active_failure) == (if in_progress {
            seq![
                "an MCP refresh remains in progress or was interrupted before its full process lifecycle was confirmed"@,
            ]
        } else {
            Seq::<Seq<char>>::empty()
        }) + (if tainted {
            seq!["an earlier MCP refresh left an unregistered process lifecycle unconfirmed"@]
        } else {
            Seq::<Seq<char>>::empty()
        }) + (if active_failure is Some {
            seq!["active manager: "@ + active_failure->Some_0]
        } else {
            Seq::<Seq<char>>::empty()
        }),
{
}

/// Each report goes to the next retired manager. A failure adds its reason and keeps the manager
/// registered, behind the others that failed; a confirmation adds nothing and lets it go.
pub proof fn manager_reports_are_taken_in_order(
    shutdown: ManagerShutdownState,
    reason: Option<Seq<char>>,
)
    ensures
        shutdown.reported(reason).outcomes == shutdown.outcomes.push(reason),
        shutdown.reported(reason).retired == shutdown.retired,
        shutdown.reported(reason).active == shutdown.active,
        shutdown.reported(reason).active_failure == shutdown.active_failure,
        shutdown.reported(reason).refresh_in_progress == shutdown.refresh_in_progress,
        shutdown.reported(reason).refresh_tainted == shutdown.refresh_tainted,
        shutdown.outcomes.len() == 0 ==> shutdown.failures() == leading_failures(
            shutdown.refresh_in_progress,
            shutdown.refresh_tainted,
            shutdown.active_failure,
        ) && shutdown.still_unconfirmed().len() == 0,
        reason is None ==> shutdown.reported(reason).failures() == shutdown.failures()
            && shutdown.reported(reason).still_unconfirmed() == shutdown.still_unconfirmed(),
        reason is Some ==> shutdown.reported(reason).failures() == shutdown.failures().push(
            "retired manager: "@ + reason->Some_0,
        ) && shutdown.reported(reason).still_unconfirmed() == shutdown.still_unconfirmed().push(
            shutdown.retired[shutdown.outcomes.len() as int],
        ),
{
    assert(shutdown.outcomes.push(reason).drop_last() =~= shutdown.outcomes);
    let leading = leading_failures(
        shutdown.refresh_in_progress,
        shutdown.refresh_tainted,
        shutdown.active_failure,
    );
    let rest = retired_failures(shutdown.outcomes);
    if reason is Some {
        let failure = "retired manager: "@ + reason->Some_0;
        assert(leading + rest.push(failure) =~= (leading + rest).push(failure));
    }
    if shutdown.outcomes.len() == 0 {
        assert(leading + rest =~= leading);
    }
}

/// A shutdown is confirmed exactly where no mark stands and the active and all the retired managers
/// confirmed. Its end keeps the managers that failed, and the active one and the marks.
pub proof fn manager_shutdowns_are_confirmed_exactly_when_all_is_gone(
    services: ServicesState,
    shutdown: ManagerShutdownState,
)
    ensures
        shutdown.complete() <==> shutdown.outcomes.len() == shutdown.retired.len(),
        shutdown.failures().len() == 0 <==> {
            &&& !shutdown.refresh_in_progress
            &&& !shutdown.refresh_tainted
            &&& shutdown.active_failure is None
            &&& forall|i: int|
                0 <= i < shutdown.outcomes.len() ==> (#[trigger] shutdown.outcomes[i]) is None
        },
        services.shut_down(shutdown).active == services.active,
        services.shut_down(shutdown).retired == shutdown.still_unconfirmed(),
        services.shut_down(shutdown).refresh_in_progress == services.refresh_in_progress,
        services.shut_down(shutdown).refresh_tainted == services.refresh_tainted,
{
    managers_fail_exactly_with_a_reason(shutdown.outcomes);
}

proof fn managers_fail_exactly_with_a_reason(outcomes: Seq<Option<Seq<char>>>)
    ensures
        retired_failures(outcomes).len() == 0 <==> forall|i: int|
            0 <= i < outcomes.len() ==> (#[trigger] outcomes[i]) is None,
    decreases outcomes.len(),
{
    if outcomes.len() > 0 {
        let before = outcomes.drop_last();
        managers_fail_exactly_with_a_reason(before);
        if retired_failures(outcomes).len() == 0 {
            assert forall|i: int| 0 <= i < outcomes.len() implies (
            #[trigger] outcomes[i]) is None by {
                if i < before.len() {
                    assert(before[i] == outcomes[i]);
                }
            }
        } else if outcomes.last() is None {
            let i = choose|i: int| 0 <= i < before.len() && !((#[trigger] before[i]) is None);
            assert(outcomes[i] == before[i]);
        } else {
            assert(outcomes[outcomes.len() - 1] is Some);
        }
    }
}

/// A retired manager is still registered after a complete shutdown exactly where it reported a
/// failure.
pub proof fn failing_managers_stay_registered(
    shutdown: ManagerShutdownState,
    manager: McpConnectionManager,
)
    requires
        shutdown.complete(),
    ensures
        shutdown.still_unconfirmed().contains(manager) <==> exists|i: int|
            0 <= i < shutdown.retired.len() && (#[trigger] shutdown.retired[i]) == manager
                && shutdown.outcomes[i] is Some,
{
    failing_managers_are_those_with_a_reason(shutdown.retired, shutdown.outcomes, manager);
}

proof fn failing_managers_are_those_with_a_reason(
    managers: Seq<McpConnectionManager>,
    outcomes: Seq<Option<Seq<char>>>,
    manager: McpConnectionManager,
)
    requires
        outcomes.len() <= managers.len(),
    ensures
        failing_managers(managers, outcomes).contains(manager) <==> exists|i: int|
            0 <= i < outcomes.len() && (#[trigger] managers[i]) == manager && outcomes[i] is Some,
    decreases outcomes.len(),
{
    if outcomes.len() > 0 {
        let before = outcomes.drop_last();
        let n = outcomes.len() - 1;
        failing_managers_are_those_with_a_reason(managers, before, manager);
        let kept = failing_managers(managers, before);
        let all = failing_managers(managers, outcomes);
        if outcomes[n] is Some {
            crate::sequences::pushed_contains(kept, managers[n], manager);
        }
        if all.contains(manager) {
            if outcomes[n] is Some && managers[n] == manager {
                assert(managers[n] == manager);
            } else {
                let i = choose|i: int|
                    0 <= i < before.len() && (#[trigger] managers[i]) == manager
                        && before[i] is Some;
                assert(managers[i] == manager && outcomes[i] is Some);
            }
        }
        if exists|i: int|
            0 <= i < outcomes.len() && (#[trigger] managers[i]) == manager && outcomes[i] is Some {
            let i = choose|i: int|
                0 <= i < outcomes.len() && (#[trigger] managers[i]) == manager
                    && outcomes[i] is Some;
            if i < n {
                assert(before[i] == outcomes[i]);
                assert(managers[i] == manager);
            }
        }
    }
}

/// A report holds its reason, and a good one none.
pub proof fn reports_hold_their_reason(reason: String)
    ensures
        reported_reason(Ok(())) is None,
        reported_reason(Err(reason)) == Some(reason@),
{
}

/// A shutdown is of the session that it was started on: the active and the retired managers and the
/// marks agree.
pub proof fn shutdowns_are_of_one_session(
    services: ServicesState,
    shutdown: ManagerShutdownState,
)
    ensures
        shutdown.is_of(services) <==> shutdown.active == services.active && shutdown.retired
            == services.retired && shutdown.refresh_in_progress == services.refresh_in_progress
            && shutdown.refresh_tainted == services.refresh_tainted,
{
}

} // verus!
