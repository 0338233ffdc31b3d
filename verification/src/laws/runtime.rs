//! Refreshes, publications and shutdowns of a runtime.

use crate::runtime::generations::{
    refresh_failures, reported_failures, retired_targets, shutdown_targets, started_shutdown,
    LifecycleState, McpConnectionSet, McpRuntimeError, McpRuntimeLifecycle, ShutdownState,
    ShutdownTarget,
};
use crate::runtime::lifecycle::{publication_requested, SharingEvent, SharingHistory};
use crate::runtime::{OpenRefresh, RuntimeEvent, RuntimeHistory, RuntimeState};
use crate::sequences::without_keeps_the_others;
use crate::text::{decimal_text, joined, texts};
use vstd::prelude::*;

verus! {

/// A runtime shows its connections and what it remembers of its refreshes.
pub proof fn runtimes_show_their_fields(
    runtime: crate::runtime::McpRuntime,
    sharing: crate::runtime::lifecycle::McpRuntime,
    lifecycle: McpRuntimeLifecycle,
)
    ensures
        runtime@.connections == runtime.connections,
        runtime@.lifecycle == runtime.lifecycle@,
        sharing@.connections == sharing.current.connections,
        sharing@.lifecycle == sharing.lifecycle@,
        lifecycle@.retired == lifecycle.retired@,
        lifecycle@.refresh_in_progress == lifecycle.refresh_in_progress,
        lifecycle@.refresh_tainted == lifecycle.refresh_tainted,
        lifecycle@.shutdown_started == lifecycle.shutdown_started,
{
}

/// A new runtime publishes its connections; nothing is retired, and no refresh or shutdown has
/// left a mark.
pub proof fn new_runtimes_have_only_their_connections(connections: McpConnectionSet)
    ensures
        RuntimeState::fresh(connections).connections == connections,
        RuntimeState::fresh(connections).lifecycle == LifecycleState::fresh(),
        LifecycleState::fresh().retired.len() == 0,
        !LifecycleState::fresh().refresh_in_progress,
        !LifecycleState::fresh().refresh_tainted,
        !LifecycleState::fresh().shutdown_started,
{
}

/// A refresh starts exactly where none is in progress and the shutdown has not started. A request
/// then marks a refresh as in progress; one during another refresh taints the runtime; one after
/// the shutdown started changes nothing. It never touches the generations.
pub proof fn refreshes_start_one_at_a_time(runtime: RuntimeState)
    ensures
        runtime.lifecycle.may_refresh() <==> !runtime.lifecycle.shutdown_started
            && !runtime.lifecycle.refresh_in_progress,
        runtime.refresh_requested().connections == runtime.connections,
        runtime.refresh_requested().lifecycle.retired == runtime.lifecycle.retired,
        runtime.refresh_requested().lifecycle.shutdown_started
            == runtime.lifecycle.shutdown_started,
        runtime.refresh_requested().lifecycle.refresh_in_progress == (
        runtime.lifecycle.refresh_in_progress || !runtime.lifecycle.shutdown_started),
        runtime.refresh_requested().lifecycle.refresh_tainted == (
        runtime.lifecycle.refresh_tainted || (runtime.lifecycle.refresh_in_progress
            && !runtime.lifecycle.shutdown_started)),
        runtime.lifecycle.refresh_requested() == runtime.refresh_requested().lifecycle,
{
}

/// An interrupted refresh is over and taints the runtime, and keeps every generation.
pub proof fn interruptions_taint_and_keep_generations(runtime: RuntimeState)
    ensures
        runtime.refresh_interrupted().connections == runtime.connections,
        runtime.refresh_interrupted().lifecycle.retired == runtime.lifecycle.retired,
        runtime.refresh_interrupted().lifecycle.shutdown_started
            == runtime.lifecycle.shutdown_started,
        !runtime.refresh_interrupted().lifecycle.refresh_in_progress,
        runtime.refresh_interrupted().lifecycle.refresh_tainted,
        runtime.lifecycle.refresh_interrupted() == runtime.refresh_interrupted().lifecycle,
{
}

/// Retiring adds a generation behind the others, and a taint is all that tainting adds.
pub proof fn retiring_adds_one_generation(
    lifecycle: LifecycleState,
    connections: McpConnectionSet,
)
    ensures
        lifecycle.with_retired(connections).retired == lifecycle.retired.push(connections),
        lifecycle.with_retired(connections).refresh_in_progress == lifecycle.refresh_in_progress,
        lifecycle.with_retired(connections).refresh_tainted == lifecycle.refresh_tainted,
        lifecycle.with_retired(connections).shutdown_started == lifecycle.shutdown_started,
        lifecycle.tainted().retired == lifecycle.retired,
        lifecycle.tainted().refresh_in_progress == lifecycle.refresh_in_progress,
        lifecycle.tainted().refresh_tainted,
        lifecycle.tainted().shutdown_started == lifecycle.shutdown_started,
        lifecycle.usable() <==> !lifecycle.refresh_tainted && !lifecycle.refresh_in_progress
            && !lifecycle.shutdown_started,
{
}

/// A refresh in progress publishes wherever the shutdown has not started, also on a tainted
/// runtime: its generation is then the published one and the former one is retired behind the
/// others. Otherwise the refresh is interrupted, and what was published stays.
pub proof fn publications_replace_the_published_generation(
    runtime: RuntimeState,
    connections: McpConnectionSet,
)
    ensures
        runtime.may_publish() <==> !runtime.lifecycle.shutdown_started
            && runtime.lifecycle.refresh_in_progress,
        ({
            let next = runtime.publish_requested(connections);
            &&& next.lifecycle.shutdown_started == runtime.lifecycle.shutdown_started
            &&& !runtime.lifecycle.shutdown_started && runtime.lifecycle.refresh_in_progress ==> {
                &&& next.connections == connections
                &&& next.lifecycle.retired == runtime.lifecycle.retired.push(runtime.connections)
                &&& next.lifecycle.refresh_in_progress
                &&& next.lifecycle.refresh_tainted == runtime.lifecycle.refresh_tainted
            }
            &&& runtime.lifecycle.shutdown_started || !runtime.lifecycle.refresh_in_progress ==> {
                &&& next.connections == runtime.connections
                &&& next.lifecycle.retired == runtime.lifecycle.retired
                &&& !next.lifecycle.refresh_in_progress
                &&& next.lifecycle.refresh_tainted
            }
        }),
{
}

/// Where generations share connections, a refresh publishes wherever the shutdown has not started,
/// whatever became of earlier refreshes: its generation is then the published one and the former
/// one is retired behind the others. Once the shutdown has started its generation is retired
/// instead, and the runtime tainted. The refresh stays open either way.
pub proof fn sharing_publications_replace_the_published_generation(
    runtime: RuntimeState,
    connections: McpConnectionSet,
)
    ensures
        ({
            let next = publication_requested(runtime, connections);
            &&& next.lifecycle.shutdown_started == runtime.lifecycle.shutdown_started
            &&& next.lifecycle.refresh_in_progress == runtime.lifecycle.refresh_in_progress
            &&& !runtime.lifecycle.shutdown_started ==> {
                &&& next.connections == connections
                &&& next.lifecycle.retired == runtime.lifecycle.retired.push(runtime.connections)
                &&& next.lifecycle.refresh_tainted == runtime.lifecycle.refresh_tainted
            }
            &&& runtime.lifecycle.shutdown_started ==> {
                &&& next.connections == runtime.connections
                &&& next.lifecycle.retired == runtime.lifecycle.retired.push(connections)
                &&& next.lifecycle.refresh_tainted
            }
        }),
{
}

/// In every history whose shutdown has not started, a publication makes its generation the
/// published one, and the former one is among the retired.
pub proof fn published_generations_are_served(
    history: RuntimeHistory,
    sharing: SharingHistory,
    connections: McpConnectionSet,
)
    ensures
        !history.runtime.lifecycle.shutdown_started
            && history.runtime.lifecycle.refresh_in_progress ==> {
            let next = history.after(RuntimeEvent::Publish(connections));
            &&& next.runtime.connections == connections
            &&& next.runtime.lifecycle.retired.contains(history.runtime.connections)
            &&& next.open == OpenRefresh::Published(history.runtime.connections)
        },
        !sharing.runtime.lifecycle.shutdown_started ==> {
            let next = sharing.after(SharingEvent::Publish(connections));
            &&& next.runtime.connections == connections
            &&& next.runtime.lifecycle.retired.contains(sharing.runtime.connections)
        },
{
    let retired = history.runtime.lifecycle.retired.push(history.runtime.connections);
    assert(retired[retired.len() - 1] == history.runtime.connections);
    let retired = sharing.runtime.lifecycle.retired.push(sharing.runtime.connections);
    assert(retired[retired.len() - 1] == sharing.runtime.connections);
}

/// A predecessor that confirms ends the refresh and is no longer retired, and nothing else is
/// changed: the taint of earlier refreshes stays and so do the other generations. One that does
/// not confirm interrupts the refresh and stays retired.
pub proof fn confirmations_forget_only_the_predecessor(
    runtime: RuntimeState,
    previous: McpConnectionSet,
    other: McpConnectionSet,
)
    ensures
        ({
            let next = runtime.predecessor_reported(previous, true);
            &&& next.connections == runtime.connections
            &&& next.lifecycle.retired.contains(other) <==> runtime.lifecycle.retired.contains(
                other,
            ) && other != previous
            &&& !next.lifecycle.refresh_in_progress
            &&& next.lifecycle.refresh_tainted == runtime.lifecycle.refresh_tainted
            &&& next.lifecycle.shutdown_started == runtime.lifecycle.shutdown_started
        }),
        ({
            let next = runtime.predecessor_reported(previous, false);
            &&& next.connections == runtime.connections
            &&& next.lifecycle.retired == runtime.lifecycle.retired
            &&& !next.lifecycle.refresh_in_progress
            &&& next.lifecycle.refresh_tainted
            &&& next.lifecycle.shutdown_started == runtime.lifecycle.shutdown_started
        }),
{
    without_keeps_the_others(runtime.lifecycle.retired, previous, other);
}

/// The generations that a confirmation leaves keep their order: one that was retired last is last
/// afterwards, unless it is the predecessor.
pub proof fn confirmations_keep_the_order(
    lifecycle: LifecycleState,
    previous: McpConnectionSet,
    last: McpConnectionSet,
)
    ensures
        lifecycle.retired.len() == 0 ==> lifecycle.refresh_confirmed(previous).retired.len() == 0,
        last != previous ==> lifecycle.with_retired(last).refresh_confirmed(previous).retired
            == lifecycle.refresh_confirmed(previous).retired.push(last),
        lifecycle.with_retired(previous).refresh_confirmed(previous).retired
            == lifecycle.refresh_confirmed(previous).retired,
{
    assert(lifecycle.retired.push(last).drop_last() =~= lifecycle.retired);
    assert(lifecycle.retired.push(previous).drop_last() =~= lifecycle.retired);
}

/// The start of a shutdown is marked and changes nothing else. Its end forgets the retired
/// generations exactly where nothing failed, and changes nothing else.
pub proof fn shutdowns_change_only_the_retired(
    runtime: RuntimeState,
    failures: Seq<Seq<char>>,
)
    ensures
        runtime.shutdown_requested().connections == runtime.connections,
        runtime.shutdown_requested().lifecycle.retired == runtime.lifecycle.retired,
        runtime.shutdown_requested().lifecycle.refresh_in_progress
            == runtime.lifecycle.refresh_in_progress,
        runtime.shutdown_requested().lifecycle.refresh_tainted == runtime.lifecycle.refresh_tainted,
        runtime.shutdown_requested().lifecycle.shutdown_started,
        runtime.lifecycle.shutdown_requested() == runtime.shutdown_requested().lifecycle,
        runtime.shutdown_ended(failures).connections == runtime.connections,
        runtime.shutdown_ended(failures).lifecycle.refresh_in_progress
            == runtime.lifecycle.refresh_in_progress,
        runtime.shutdown_ended(failures).lifecycle.refresh_tainted
            == runtime.lifecycle.refresh_tainted,
        runtime.shutdown_ended(failures).lifecycle.shutdown_started
            == runtime.lifecycle.shutdown_started,
        failures.len() == 0 ==> runtime.shutdown_ended(failures).lifecycle.retired.len() == 0,
        failures.len() > 0 ==> runtime.shutdown_ended(failures).lifecycle.retired
            == runtime.lifecycle.retired,
        runtime.lifecycle.shutdown_ended(failures) == runtime.shutdown_ended(failures).lifecycle,
{
}

/// The target stands for the retired generation at its index, and is not the current one.
pub open spec fn is_retired_target(
    target: ShutdownTarget,
    current: McpConnectionSet,
    retired: Seq<McpConnectionSet>,
) -> bool {
    &&& target.retired_index matches Some(index)
    &&& (index as int) < retired.len()
    &&& retired[index as int] == target.connections
    &&& target.connections != current
}

/// The generation retired at `i` is among the targets under its index.
pub open spec fn has_index(targets: Seq<ShutdownTarget>, i: int) -> bool {
    exists|j: int|
        0 <= j < targets.len() && (#[trigger] targets[j]).retired_index == Some(i as usize)
}

proof fn retired_targets_are_these(current: McpConnectionSet, retired: Seq<McpConnectionSet>)
    requires
        retired.len() <= usize::MAX,
    ensures
        ({
            let targets = retired_targets(current, retired);
            &&& forall|j: int|
                0 <= j < targets.len() ==> is_retired_target(
                    #[trigger] targets[j],
                    current,
                    retired,
                )
            &&& forall|i: int|
                0 <= i < retired.len() && #[trigger] retired[i] != current ==> has_index(targets, i)
            &&& forall|a: int, b: int|
                0 <= a < b < targets.len() ==> (#[trigger] targets[a]).retired_index->Some_0 < (
                #[trigger] targets[b]).retired_index->Some_0
        }),
    decreases retired.len(),
{
    if retired.len() > 0 {
        let before = retired.drop_last();
        retired_targets_are_these(current, before);
        let earlier = retired_targets(current, before);
        let targets = retired_targets(current, retired);
        let last = retired.len() - 1;
        assert forall|j: int| 0 <= j < targets.len() implies is_retired_target(
            #[trigger] targets[j],
            current,
            retired,
        ) by {
            if j < earlier.len() {
                assert(targets[j] == earlier[j]);
                assert(is_retired_target(earlier[j], current, before));
            }
        }
        assert forall|i: int| 0 <= i < retired.len() && #[trigger] retired[i] != current implies has_index(
            targets,
            i,
        ) by {
            if i < last {
                assert(before[i] == retired[i]);
                assert(has_index(earlier, i));
                let j = choose|j: int|
                    0 <= j < earlier.len() && (#[trigger] earlier[j]).retired_index == Some(
                        i as usize,
                    );
                assert(targets[j] == earlier[j]);
            } else {
                assert(targets[targets.len() - 1].retired_index == Some(last as usize));
            }
        }
        assert forall|a: int, b: int| 0 <= a < b < targets.len() implies (
        #[trigger] targets[a]).retired_index->Some_0 < (
        #[trigger] targets[b]).retired_index->Some_0 by {
            assert(targets[a] == earlier[a]);
            assert(is_retired_target(earlier[a], current, before));
            if b < earlier.len() {
                assert(targets[b] == earlier[b]);
            }
        }
    }
}

/// A shutdown stops the current generation first, without an index, and then each retired
/// generation that is not the current one, in the order in which they were retired, under its
/// index among the retired; and nothing else. It starts with what the lifecycle marks and with no
/// report.
pub proof fn shutdowns_stop_the_current_and_then_the_retired(
    lifecycle: LifecycleState,
    current: McpConnectionSet,
)
    requires
        lifecycle.retired.len() <= usize::MAX,
    ensures
        ({
            let started = started_shutdown(lifecycle, current);
            let targets = started.targets;
            &&& started.refresh_in_progress == lifecycle.refresh_in_progress
            &&& started.refresh_tainted == lifecycle.refresh_tainted
            &&& started.outcomes.len() == 0
            &&& targets.len() > 0
            &&& targets[0].connections == current
            &&& targets[0].retired_index is None
            &&& forall|j: int|
                0 < j < targets.len() ==> is_retired_target(
                    #[trigger] targets[j],
                    current,
                    lifecycle.retired,
                )
            &&& forall|i: int|
                0 <= i < lifecycle.retired.len() && #[trigger] lifecycle.retired[i] != current
                    ==> has_index(targets, i)
            &&& forall|a: int, b: int|
                0 < a < b < targets.len() ==> (#[trigger] targets[a]).retired_index->Some_0 < (
                #[trigger] targets[b]).retired_index->Some_0
            &&& targets == shutdown_targets(current, lifecycle.retired)
        }),
{
    let rest = retired_targets(current, lifecycle.retired);
    let targets = shutdown_targets(current, lifecycle.retired);
    retired_targets_are_these(current, lifecycle.retired);
    assert(forall|j: int| 0 < j < targets.len() ==> #[trigger] targets[j] == rest[j - 1]);
    assert forall|i: int|
        0 <= i < lifecycle.retired.len() && #[trigger] lifecycle.retired[i]
            != current implies has_index(targets, i) by {
        assert(has_index(rest, i));
        let j = choose|j: int|
            0 <= j < rest.len() && (#[trigger] rest[j]).retired_index == Some(i as usize);
        assert(targets[j + 1] == rest[j]);
    }
}

/// How a failure names its generation.
pub open spec fn label(target: ShutdownTarget) -> Seq<char> {
    if target.retired_index is None {
        "current generation: "@
    } else {
        "retired generation "@ + decimal_text(target.retired_index->Some_0 as nat) + ": "@
    }
}

/// Before any report a shutdown fails for a refresh in progress and for an interrupted one, in this
/// order. Each report goes to the next target: a failure adds its reason, behind the name of the
/// generation, and a confirmation adds nothing.
pub proof fn shutdown_failures_come_in_order(
    shutdown: ShutdownState,
    outcome: Option<Seq<char>>,
)
    ensures
        shutdown.outcomes.len() == 0 ==> shutdown.failures() == (if shutdown.refresh_in_progress {
            seq!["an MCP refresh remains in progress, so its process lifecycle is unconfirmed"@]
        } else {
            Seq::<Seq<char>>::empty()
        }) + (if shutdown.refresh_tainted {
            seq!["an interrupted MCP refresh left a process lifecycle unconfirmed"@]
        } else {
            Seq::<Seq<char>>::empty()
        }),
        shutdown.reported(outcome).outcomes == shutdown.outcomes.push(outcome),
        shutdown.reported(outcome).targets == shutdown.targets,
        shutdown.reported(outcome).refresh_in_progress == shutdown.refresh_in_progress,
        shutdown.reported(outcome).refresh_tainted == shutdown.refresh_tainted,
        outcome is None ==> shutdown.reported(outcome).failures() == shutdown.failures(),
        outcome is Some ==> shutdown.reported(outcome).failures() == shutdown.failures().push(
            label(shutdown.targets[shutdown.outcomes.len() as int]) + outcome->Some_0,
        ),
{
    assert(shutdown.outcomes.push(outcome).drop_last() =~= shutdown.outcomes);
    let first = refresh_failures(shutdown.refresh_in_progress, shutdown.refresh_tainted);
    let rest = reported_failures(shutdown.targets, shutdown.outcomes);
    if outcome is Some {
        let failure = label(shutdown.targets[shutdown.outcomes.len() as int]) + outcome->Some_0;
        assert(first + rest.push(failure) =~= (first + rest).push(failure));
    }
    if shutdown.outcomes.len() == 0 {
        assert(first + rest =~= first);
    }
}

/// A shutdown whose targets have all reported is complete, and it is confirmed exactly where no
/// refresh was in progress, none had been interrupted, and every target confirmed.
pub proof fn shutdowns_are_confirmed_exactly_when_all_is_gone(shutdown: ShutdownState)
    ensures
        shutdown.complete() <==> shutdown.outcomes.len() == shutdown.targets.len(),
        shutdown.failures().len() == 0 <==> {
            &&& !shutdown.refresh_in_progress
            &&& !shutdown.refresh_tainted
            &&& forall|i: int|
                0 <= i < shutdown.outcomes.len() ==> (#[trigger] shutdown.outcomes[i]) is None
        },
{
    reports_fail_exactly_with_a_reason(shutdown.targets, shutdown.outcomes);
}

proof fn reports_fail_exactly_with_a_reason(
    targets: Seq<ShutdownTarget>,
    outcomes: Seq<Option<Seq<char>>>,
)
    ensures
        reported_failures(targets, outcomes).len() == 0 <==> forall|i: int|
            0 <= i < outcomes.len() ==> (#[trigger] outcomes[i]) is None,
    decreases outcomes.len(),
{
    if outcomes.len() > 0 {
        let before = outcomes.drop_last();
        reports_fail_exactly_with_a_reason(targets, before);
        if reported_failures(targets, outcomes).len() == 0 {
            assert forall|i: int| 0 <= i < outcomes.len() implies (
            #[trigger] outcomes[i]) is None by {
                if i < before.len() {
                    assert(before[i] == outcomes[i]);
                }
            }
        } else if outcomes.last() is None {
            let i = choose|i: int| 0 <= i < before.len() && !((#[trigger] before[i]) is None);
            assert(outcomes[i] == before[i]);
        } else {
            assert(outcomes[outcomes.len() - 1] is Some);
        }
    }
}

/// Each error has its own text, and one with a reason passes it on whole.
pub proof fn runtime_errors_say_what_happened(reason: String, failures: Vec<String>)
    ensures
        McpRuntimeError::ShutdownStarted.text() == "MCP runtime shutdown has already started"@,
        McpRuntimeError::RefreshInProgress.text()
            == "another MCP runtime refresh is already in progress"@,
        McpRuntimeError::ShutdownBeforePublication.text()
            == "MCP runtime shutdown started before refresh publication"@,
        McpRuntimeError::LifecycleLost.text()
            == "MCP runtime refresh publication lost its lifecycle"@,
        McpRuntimeError::RefreshUnconfirmed.text()
            == "MCP runtime refresh cleanup could not be confirmed"@,
        McpRuntimeError::PreviousUnconfirmed(reason).text()
            == "previous MCP generation shutdown could not be confirmed: "@ + reason@,
        McpRuntimeError::ReplacedUnconfirmed(reason).text() == reason@,
        McpRuntimeError::ShutdownUnconfirmed(failures).text()
            == "MCP runtime shutdown could not be confirmed: "@ + joined(
            texts(failures@),
            "; "@,
        ),
        texts(failures@).len() == failures@.len(),
        forall|i: int| 0 <= i < failures@.len() ==> #[trigger] texts(failures@)[i] == failures@[i]@,
{
}

/// A history follows the operations: a refresh opens exactly where one may start, a publication
/// keeps it open until the predecessor is reported on, and every other end closes it.
pub proof fn histories_follow_the_operations(
    history: RuntimeHistory,
    connections: McpConnectionSet,
    stopped: bool,
    shutdown: ShutdownState,
)
    ensures
        history.after(RuntimeEvent::BeginRefresh).runtime == history.runtime.refresh_requested(),
        history.after(RuntimeEvent::Publish(connections)).runtime
            == history.runtime.publish_requested(connections),
        history.after(RuntimeEvent::InterruptRefresh).runtime
            == history.runtime.refresh_interrupted(),
        history.after(RuntimeEvent::InterruptPublication).runtime
            == history.runtime.refresh_interrupted(),
        history.open == OpenRefresh::Published(connections) ==> history.after(
            RuntimeEvent::Confirm(stopped),
        ).runtime == history.runtime.predecessor_reported(connections, stopped),
        history.after(RuntimeEvent::BeginShutdown).runtime == history.runtime.shutdown_requested(),
        history.after(RuntimeEvent::FinishShutdown(shutdown)).runtime
            == history.runtime.shutdown_ended(shutdown.failures()),
        history.after(RuntimeEvent::InterruptRefresh).open == OpenRefresh::Idle,
        history.after(RuntimeEvent::InterruptPublication).open == OpenRefresh::Idle,
        history.after(RuntimeEvent::Confirm(stopped)).open == OpenRefresh::Idle,
        history.runtime.lifecycle.may_refresh() ==> history.after(RuntimeEvent::BeginRefresh).open
            == OpenRefresh::Constructing,
        !history.runtime.lifecycle.may_refresh() ==> history.after(RuntimeEvent::BeginRefresh).open
            == history.open,
        history.after(RuntimeEvent::BeginShutdown).open == history.open,
        history.after(RuntimeEvent::FinishShutdown(shutdown)).open == history.open,
{
}

/// A history of a runtime whose generations share connections follows the operations.
pub proof fn sharing_histories_follow_the_operations(
    history: SharingHistory,
    connections: McpConnectionSet,
    stopped: bool,
    shutdown: ShutdownState,
)
    ensures
        history.after(SharingEvent::BeginRefresh).runtime == history.runtime.refresh_requested(),
        history.after(SharingEvent::Publish(connections)).runtime == publication_requested(
            history.runtime,
            connections,
        ),
        history.after(SharingEvent::Interrupt).runtime == history.runtime.refresh_interrupted(),
        history.after(SharingEvent::Confirm(connections, stopped)).runtime
            == history.runtime.predecessor_reported(connections, stopped),
        history.after(SharingEvent::BeginShutdown).runtime == history.runtime.shutdown_requested(),
        history.after(SharingEvent::FinishShutdown(shutdown)).runtime
            == history.runtime.shutdown_ended(shutdown.failures()),
        history.after(SharingEvent::BeginRefresh).open == (history.open
            || history.runtime.lifecycle.may_refresh()),
        history.after(SharingEvent::Publish(connections)).open == history.open,
        !history.after(SharingEvent::Interrupt).open,
        !history.after(SharingEvent::Confirm(connections, stopped)).open,
        history.after(SharingEvent::BeginShutdown).open == history.open,
        history.after(SharingEvent::FinishShutdown(shutdown)).open == history.open,
{
}

} // verus!
