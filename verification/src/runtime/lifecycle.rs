//! Confirmed ownership of MCP transports across refresh and terminal shutdown, for runtimes whose
//! generations share the connections that did not change.
//!
//! A refresh stops only those connections of its predecessor that its successor does not reuse,
//! and a generation that was constructed too late to be published is kept for the shutdown.

use crate::runtime::generations::{
    confirmed_shutdown_stopped_its_targets, covers, refresh_failures,
    shutdown_covers_every_generation, started_shutdown,
    McpConnectionSet, McpRuntimeError, McpRuntimeLifecycle, McpRuntimeShutdown, ShutdownState,
};
use crate::runtime::RuntimeState;
use crate::sequences::{pushed_contains, without_keeps_the_others};
use crate::text::texts;
use vstd::prelude::*;

verus! {

/// One generation of a runtime.
#[derive(Clone, Copy, Debug, PartialEq, Eq, Structural)]
pub struct PublishedMcpRuntime {
    pub connections: McpConnectionSet,
}

/// Owns the published generation of one thread.
pub struct McpRuntime {
    pub current: PublishedMcpRuntime,
    pub lifecycle: McpRuntimeLifecycle,
}

/// Marks the interval from the construction of a new generation to the confirmed shutdown of what
/// it replaced.
///
/// It ends in [`Self::confirm`]; a refresh that ends otherwise is handed to
/// [`Self::interrupted`], which taints the runtime for good.
pub struct McpRuntimeRefresh {
    open: (),
}

impl View for McpRuntime {
    type V = RuntimeState;

    open spec fn view(&self) -> RuntimeState {
        RuntimeState { connections: self.current.connections, lifecycle: self.lifecycle@ }
    }
}

/// After a refresh asked to publish `connections`: the new generation is current and its
/// predecessor retired, or, once the shutdown has started, the new generation is retired and the
/// runtime tainted. The refresh stays open either way.
pub open spec fn publication_requested(
    runtime: RuntimeState,
    connections: McpConnectionSet,
) -> RuntimeState {
    if runtime.lifecycle.shutdown_started {
        RuntimeState {
            lifecycle: runtime.lifecycle.with_retired(connections).tainted(),
            ..runtime
        }
    } else {
        RuntimeState {
            connections,
            lifecycle: runtime.lifecycle.with_retired(runtime.connections),
        }
    }
}

impl McpRuntime {
    /// A runtime that has published the generation `connections` and was never refreshed.
    pub fn empty(connections: McpConnectionSet) -> (runtime: Self)
        ensures
            runtime@ == RuntimeState::fresh(connections),
    {
        McpRuntime {
            current: PublishedMcpRuntime { connections },
            lifecycle: McpRuntimeLifecycle::new(),
        }
    }

    /// The connections of the published generation.
    pub fn latest_connections(&self) -> (connections: McpConnectionSet)
        ensures
            connections == self@.connections,
    {
        self.current.connections
    }

    /// Starts a refresh, unless the shutdown has started or another refresh is in progress.
    pub fn begin_refresh(&mut self) -> (refresh: Result<McpRuntimeRefresh, McpRuntimeError>)
        ensures
            final(self)@ == old(self)@.refresh_requested(),
            match refresh {
                Ok(_) => old(self)@.lifecycle.may_refresh(),
                Err(error) => if old(self)@.lifecycle.shutdown_started {
                    error == McpRuntimeError::ShutdownStarted
                } else {
                    old(self)@.lifecycle.refresh_in_progress && error
                        == McpRuntimeError::RefreshInProgress
                },
            },
    {
        match self.lifecycle.begin_refresh() {
            Ok(_) => Ok(McpRuntimeRefresh { open: () }),
            Err(error) => Err(error),
        }
    }

    /// Rejects use after a refresh whose transport cleanup could not be confirmed.
    pub fn ensure_refresh_confirmed(&self) -> (confirmed: Result<(), McpRuntimeError>)
        ensures
            match confirmed {
                Ok(_) => self@.lifecycle.usable(),
                Err(error) => !self@.lifecycle.usable() && error == if self@.lifecycle.refresh_tainted
                    || self@.lifecycle.refresh_in_progress {
                    McpRuntimeError::RefreshUnconfirmed
                } else {
                    McpRuntimeError::ShutdownStarted
                },
            },
    {
        self.lifecycle.ensure_refresh_confirmed()
    }

    /// Starts the terminal shutdown. No refresh can start or publish from here on.
    pub fn begin_shutdown(&mut self) -> (shutdown: McpRuntimeShutdown)
        ensures
            final(self)@ == old(self)@.shutdown_requested(),
            shutdown@ == started_shutdown(old(self)@.lifecycle, old(self)@.connections),
    {
        let current = self.latest_connections();
        self.lifecycle.begin_shutdown(current)
    }

    /// Ends the terminal shutdown once every generation has reported. It fails closed where a
    /// refresh was interrupted or a generation could not be confirmed stopped.
    pub fn shutdown_confirmed(&mut self, shutdown: McpRuntimeShutdown) -> (confirmed: Result<
        (),
        McpRuntimeError,
    >)
        requires
            shutdown@.complete(),
        ensures
            final(self)@ == old(self)@.shutdown_ended(shutdown@.failures()),
            match confirmed {
                Ok(_) => shutdown@.failures().len() == 0,
                Err(error) => shutdown@.failures().len() > 0 && (error matches
                    McpRuntimeError::ShutdownUnconfirmed(failures) && texts(failures@)
                    == shutdown@.failures()),
            },
    {
        self.lifecycle.finish_shutdown(shutdown)
    }
}

impl McpRuntimeRefresh {
    /// Publishes a new generation and gives back its predecessor. Once the shutdown has started
    /// the new generation is not published: it may have launched processes, so it is retired.
    pub fn publish(&self, runtime: &mut McpRuntime, current: PublishedMcpRuntime) -> (previous:
        Result<McpConnectionSet, McpRuntimeError>)
        ensures
            final(runtime)@ == publication_requested(old(runtime)@, current.connections),
            match previous {
                Ok(previous) => !old(runtime)@.lifecycle.shutdown_started && previous == old(
                    runtime,
                )@.connections,
                Err(error) => old(runtime)@.lifecycle.shutdown_started && error
                    == McpRuntimeError::ShutdownBeforePublication,
            },
    {
        if runtime.lifecycle.shutdown_started {
            runtime.lifecycle.retire(current.connections);
            runtime.lifecycle.taint();
            return Err(McpRuntimeError::ShutdownBeforePublication);
        }
        let previous = runtime.current;
        runtime.current = current;
        runtime.lifecycle.retire(previous.connections);
        Ok(previous.connections)
    }

    /// Ends the refresh with the report on those connections of `previous` that were replaced.
    /// Where their shutdown is not confirmed the refresh is interrupted.
    pub fn confirm(
        self,
        runtime: &mut McpRuntime,
        previous: McpConnectionSet,
        stopped: Result<(), String>,
    ) -> (confirmed: Result<(), McpRuntimeError>)
        ensures
            final(runtime)@ == old(runtime)@.predecessor_reported(previous, stopped is Ok),
            match stopped {
                Ok(_) => confirmed is Ok,
                Err(reason) => confirmed == Err::<(), _>(
                    McpRuntimeError::ReplacedUnconfirmed(reason),
                ),
            },
    {
        match stopped {
            Ok(_) => {
                runtime.lifecycle.confirm_refresh(previous);
                Ok(())
            },
            Err(reason) => {
                self.interrupted(runtime);
                Err(McpRuntimeError::ReplacedUnconfirmed(reason))
            },
        }
    }

    /// Ends a refresh that was not confirmed.
    pub fn interrupted(self, runtime: &mut McpRuntime)
        ensures
            final(runtime)@ == old(runtime)@.refresh_interrupted(),
    {
        runtime.lifecycle.interrupt_refresh();
    }
}

/// The generation that a runtime over `connections` starts with.
pub fn empty_publication(connections: McpConnectionSet) -> (publication: PublishedMcpRuntime)
    ensures
        publication.connections == connections,
{
    McpRuntime::empty(connections).current
}

/// A runtime, whether it has handed out a refresh that has not ended, and the terminal shutdowns
/// that were started.
#[verifier::ext_equal]
pub struct SharingHistory {
    pub runtime: RuntimeState,
    pub open: bool,
    pub shutdowns: Seq<ShutdownState>,
}

/// One operation on a runtime.
pub enum SharingEvent {
    BeginRefresh,
    Publish(McpConnectionSet),
    /// What was replaced of this generation confirmed its shutdown, or did not.
    Confirm(McpConnectionSet, bool),
    Interrupt,
    BeginShutdown,
    /// A terminal shutdown ends in this state.
    FinishShutdown(ShutdownState),
}

impl SharingHistory {
    /// A new runtime.
    pub open spec fn fresh(connections: McpConnectionSet) -> SharingHistory {
        SharingHistory {
            runtime: RuntimeState::fresh(connections),
            open: false,
            shutdowns: Seq::empty(),
        }
    }

    /// The refresh or the shutdown that the event needs is there.
    pub open spec fn allows(self, event: SharingEvent) -> bool {
        match event {
            SharingEvent::Publish(_) | SharingEvent::Confirm(_, _) | SharingEvent::Interrupt =>
                self.open,
            SharingEvent::FinishShutdown(shutdown) => exists|i: int|
                0 <= i < self.shutdowns.len() && shutdown.completes(#[trigger] self.shutdowns[i]),
            SharingEvent::BeginRefresh | SharingEvent::BeginShutdown => true,
        }
    }

    /// After the event.
    pub open spec fn after(self, event: SharingEvent) -> SharingHistory {
        match event {
            SharingEvent::BeginRefresh => SharingHistory {
                runtime: self.runtime.refresh_requested(),
                open: self.open || self.runtime.lifecycle.may_refresh(),
                ..self
            },
            SharingEvent::Publish(connections) => SharingHistory {
                runtime: publication_requested(self.runtime, connections),
                ..self
            },
            SharingEvent::Confirm(previous, stopped) => SharingHistory {
                runtime: self.runtime.predecessor_reported(previous, stopped),
                open: false,
                ..self
            },
            SharingEvent::Interrupt => SharingHistory {
                runtime: self.runtime.refresh_interrupted(),
                open: false,
                ..self
            },
            SharingEvent::BeginShutdown => SharingHistory {
                runtime: self.runtime.shutdown_requested(),
                shutdowns: self.shutdowns.push(
                    started_shutdown(self.runtime.lifecycle, self.runtime.connections),
                ),
                ..self
            },
            SharingEvent::FinishShutdown(shutdown) => SharingHistory {
                runtime: self.runtime.shutdown_ended(shutdown.failures()),
                ..self
            },
        }
    }

    /// Each event finds what it needs.
    pub open spec fn allows_all(self, events: Seq<SharingEvent>) -> bool
        decreases events.len(),
    {
        events.len() == 0 || (self.allows(events[0]) && self.after(events[0]).allows_all(
            events.skip(1),
        ))
    }

    /// After the events, in order.
    pub open spec fn after_all(self, events: Seq<SharingEvent>) -> SharingHistory
        decreases events.len(),
    {
        if events.len() == 0 {
            self
        } else {
            self.after(events[0]).after_all(events.skip(1))
        }
    }

    /// The event reports that the processes of `connections` are gone.
    pub open spec fn reports_stopped(
        self,
        event: SharingEvent,
        connections: McpConnectionSet,
    ) -> bool {
        match event {
            SharingEvent::Confirm(previous, stopped) => stopped && previous == connections,
            SharingEvent::FinishShutdown(shutdown) => shutdown.confirms(connections),
            _ => false,
        }
    }

    /// A refresh is marked as in progress exactly while one has not ended, and a shutdown that
    /// found no refresh in progress stops every generation that the runtime answers for.
    pub open spec fn consistent(self) -> bool {
        &&& self.runtime.lifecycle.refresh_in_progress == self.open
        &&& self.shutdowns.len() > 0 ==> self.runtime.lifecycle.shutdown_started
        &&& forall|i: int|
            0 <= i < self.shutdowns.len() && !(#[trigger] self.shutdowns[i]).refresh_in_progress
                ==> !self.open && self.runtime.covered_by(self.shutdowns[i])
    }
}

/// A new runtime is consistent.
pub proof fn new_sharing_runtimes_are_consistent(connections: McpConnectionSet)
    ensures
        SharingHistory::fresh(connections).consistent(),
{
}

/// Every operation keeps a runtime consistent.
pub proof fn sharing_events_keep_consistency(history: SharingHistory, event: SharingEvent)
    requires
        history.consistent(),
        history.allows(event),
    ensures
        history.after(event).consistent(),
{
    let next = history.after(event);
    let lifecycle = history.runtime.lifecycle;
    assert forall|i: int|
        0 <= i < next.shutdowns.len() && !(
        #[trigger] next.shutdowns[i]).refresh_in_progress implies !next.open
        && next.runtime.covered_by(next.shutdowns[i]) by {
        if i < history.shutdowns.len() {
            assert(next.shutdowns[i] == history.shutdowns[i]);
        }
        assert forall|connections: McpConnectionSet| #[trigger]
            next.runtime.tracks(connections) implies covers(
            next.shutdowns[i].targets,
            connections,
        ) by {
            if i < history.shutdowns.len() {
                if let SharingEvent::Confirm(previous, _) = event {
                    without_keeps_the_others(lifecycle.retired, previous, connections);
                }
                assert(history.runtime.tracks(connections));
            } else {
                shutdown_covers_every_generation(
                    history.runtime.connections,
                    lifecycle.retired,
                    connections,
                );
            }
        }
    }
}

/// Every history of a consistent runtime is consistent.
pub proof fn sharing_histories_are_consistent(history: SharingHistory, events: Seq<SharingEvent>)
    requires
        history.consistent(),
        history.allows_all(events),
    ensures
        history.after_all(events).consistent(),
    decreases events.len(),
{
    if events.len() > 0 {
        sharing_events_keep_consistency(history, events[0]);
        sharing_histories_are_consistent(history.after(events[0]), events.skip(1));
    }
}

/// A terminal shutdown is confirmed only where every generation that the runtime answers for was
/// stopped and confirmed that.
pub proof fn confirmed_sharing_shutdowns_stop_every_generation(
    history: SharingHistory,
    shutdown: ShutdownState,
    connections: McpConnectionSet,
)
    requires
        history.consistent(),
        history.allows(SharingEvent::FinishShutdown(shutdown)),
        shutdown.failures().len() == 0,
        history.runtime.tracks(connections),
    ensures
        shutdown.confirms(connections),
{
    confirmed_shutdown_stopped_its_targets(shutdown);
    let i = choose|i: int|
        0 <= i < history.shutdowns.len() && shutdown.completes(#[trigger] history.shutdowns[i]);
    assert(history.runtime.covered_by(history.shutdowns[i]));
    assert(covers(history.shutdowns[i].targets, connections));
}

/// A runtime answers for a generation until its processes are reported gone: no operation loses
/// one, not an interrupted refresh and not an unconfirmed shutdown either.
pub proof fn shared_generations_are_retained_until_stopped(
    history: SharingHistory,
    event: SharingEvent,
    connections: McpConnectionSet,
)
    requires
        history.consistent(),
        history.allows(event),
        history.runtime.tracks(connections),
    ensures
        history.after(event).runtime.tracks(connections) || history.reports_stopped(
            event,
            connections,
        ),
{
    let lifecycle = history.runtime.lifecycle;
    match event {
        SharingEvent::Publish(published) => {
            pushed_contains(lifecycle.retired, history.runtime.connections, connections);
            pushed_contains(lifecycle.retired, published, connections);
        },
        SharingEvent::Confirm(previous, _) => {
            without_keeps_the_others(lifecycle.retired, previous, connections);
        },
        SharingEvent::FinishShutdown(shutdown) => {
            if shutdown.failures().len() == 0 {
                confirmed_sharing_shutdowns_stop_every_generation(history, shutdown, connections);
            }
        },
        _ => {},
    }
}

/// The runtime answers for every generation that a refresh hands it, also for one that came too
/// late to be published.
pub proof fn constructed_generations_are_retained(
    history: SharingHistory,
    connections: McpConnectionSet,
)
    ensures
        history.after(SharingEvent::Publish(connections)).runtime.tracks(connections),
{
    pushed_contains(history.runtime.lifecycle.retired, connections, connections);
}

/// The taint of an interrupted refresh is permanent, and so is the start of the shutdown.
pub proof fn sharing_taint_and_shutdown_are_permanent(
    history: SharingHistory,
    events: Seq<SharingEvent>,
)
    ensures
        history.runtime.lifecycle.refresh_tainted ==> history.after_all(
            events,
        ).runtime.lifecycle.refresh_tainted,
        history.runtime.lifecycle.shutdown_started ==> history.after_all(
            events,
        ).runtime.lifecycle.shutdown_started,
    decreases events.len(),
{
    if events.len() > 0 {
        sharing_taint_and_shutdown_are_permanent(history.after(events[0]), events.skip(1));
    }
}

/// Once the runtime is tainted it stays rejected and no terminal shutdown is ever confirmed again:
/// a later successful refresh does not clear the uncertainty.
pub proof fn interrupted_sharing_refreshes_prevent_confirmed_shutdown(
    history: SharingHistory,
    events: Seq<SharingEvent>,
    outcomes: Seq<Option<Seq<char>>>,
)
    requires
        history.runtime.lifecycle.refresh_tainted,
    ensures
        ({
            let later = history.after_all(events);
            let started = started_shutdown(later.runtime.lifecycle, later.runtime.connections);
            &&& !later.runtime.lifecycle.usable()
            &&& (ShutdownState { outcomes, ..started }).failures().contains(
                "an interrupted MCP refresh left a process lifecycle unconfirmed"@,
            )
        }),
{
    let later = history.after_all(events);
    sharing_taint_and_shutdown_are_permanent(history, events);
    let started = started_shutdown(later.runtime.lifecycle, later.runtime.connections);
    let ended = ShutdownState { outcomes, ..started };
    let first = refresh_failures(ended.refresh_in_progress, ended.refresh_tainted);
    assert(ended.failures()[first.len() - 1]
        == "an interrupted MCP refresh left a process lifecycle unconfirmed"@);
}

/// A refresh that goes wrong taints the runtime: one that is interrupted, one that publishes too
/// late, one whose replaced connections fail to stop, and a second one while another is open.
pub proof fn sharing_refreshes_that_go_wrong_taint(
    history: SharingHistory,
    connections: McpConnectionSet,
)
    ensures
        history.after(SharingEvent::Interrupt).runtime.lifecycle.refresh_tainted,
        history.after(
            SharingEvent::Confirm(connections, false),
        ).runtime.lifecycle.refresh_tainted,
        history.runtime.lifecycle.shutdown_started ==> history.after(
            SharingEvent::Publish(connections),
        ).runtime.lifecycle.refresh_tainted,
        !history.runtime.lifecycle.shutdown_started
            && history.runtime.lifecycle.refresh_in_progress ==> history.after(
            SharingEvent::BeginRefresh,
        ).runtime.lifecycle.refresh_tainted,
{
}

/// Once a shutdown has started, no refresh starts and nothing is published any more.
pub proof fn shutdown_blocks_sharing_refresh_and_publication(
    history: SharingHistory,
    events: Seq<SharingEvent>,
)
    requires
        history.runtime.lifecycle.shutdown_started,
    ensures
        !history.after_all(events).runtime.lifecycle.may_refresh(),
        history.after_all(events).runtime.connections == history.runtime.connections,
    decreases events.len(),
{
    if events.len() > 0 {
        shutdown_blocks_sharing_refresh_and_publication(
            history.after(events[0]),
            events.skip(1),
        );
    }
}

} // verus!
