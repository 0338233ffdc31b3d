//! Runtime support for Model Context Protocol (MCP) servers.
//!
//! A runtime owns the published connection set of one thread. Each operation here is one
//! critical section of it: the caller holds the runtime exclusively, stops connection sets
//! between the operations, and reports how that went.

pub mod context;
pub mod generations;
pub mod lifecycle;

use crate::runtime::generations::{
    confirmed_shutdown_stopped_its_targets, covers, refresh_failures,
    shutdown_covers_every_generation, started_shutdown, LifecycleState,
    McpConnectionSet, McpRuntimeError, McpRuntimeLifecycle, McpRuntimeShutdown, ShutdownState,
};
use crate::sequences::{pushed_contains, without_keeps_the_others};
use crate::text::texts;
use vstd::prelude::*;

verus! {

/// Owns the published connection set of one thread.
pub struct McpRuntime {
    pub connections: McpConnectionSet,
    pub lifecycle: McpRuntimeLifecycle,
}

/// Marks the interval in which a replacement connection set may launch processes.
///
/// It ends in [`Self::publish`]; a refresh that ends otherwise is handed to
/// [`Self::interrupted`], which taints the runtime for good, because a partly constructed client
/// may be out of reach.
pub struct McpRuntimeRefresh {
    open: (),
}

/// A published generation whose predecessor has not confirmed its shutdown yet.
///
/// It ends in [`Self::confirm`]; a publication that ends otherwise is handed to
/// [`Self::interrupted`], which taints the runtime and leaves the predecessor registered.
pub struct McpRuntimePublication {
    connections: McpConnectionSet,
    previous: McpConnectionSet,
}

/// A published generation and its predecessor.
pub struct PublicationState {
    pub connections: McpConnectionSet,
    pub previous: McpConnectionSet,
}

impl View for McpRuntimePublication {
    type V = PublicationState;

    closed spec fn view(&self) -> PublicationState {
        PublicationState { connections: self.connections, previous: self.previous }
    }
}

/// The state of a runtime.
#[verifier::ext_equal]
pub struct RuntimeState {
    pub connections: McpConnectionSet,
    pub lifecycle: LifecycleState,
}

impl View for McpRuntime {
    type V = RuntimeState;

    open spec fn view(&self) -> RuntimeState {
        RuntimeState { connections: self.connections, lifecycle: self.lifecycle@ }
    }
}

impl RuntimeState {
    /// A new runtime.
    pub open spec fn fresh(connections: McpConnectionSet) -> RuntimeState {
        RuntimeState { connections, lifecycle: LifecycleState::fresh() }
    }

    /// A refresh may publish.
    pub open spec fn may_publish(self) -> bool {
        !self.lifecycle.shutdown_started && self.lifecycle.refresh_in_progress
    }

    /// After a refresh asked to publish `connections`: the new generation is current and its
    /// predecessor retired, or the refresh was refused, which interrupts it.
    pub open spec fn publish_requested(self, connections: McpConnectionSet) -> RuntimeState {
        if self.may_publish() {
            RuntimeState {
                connections,
                lifecycle: self.lifecycle.with_retired(self.connections),
            }
        } else {
            self.refresh_interrupted()
        }
    }

    /// After an attempt to start a refresh.
    pub open spec fn refresh_requested(self) -> RuntimeState {
        RuntimeState { lifecycle: self.lifecycle.refresh_requested(), ..self }
    }

    /// After a refresh was interrupted.
    pub open spec fn refresh_interrupted(self) -> RuntimeState {
        RuntimeState { lifecycle: self.lifecycle.refresh_interrupted(), ..self }
    }

    /// After the shutdown of the predecessor `previous` was confirmed, or was not.
    pub open spec fn predecessor_reported(
        self,
        previous: McpConnectionSet,
        stopped: bool,
    ) -> RuntimeState {
        if stopped {
            RuntimeState { lifecycle: self.lifecycle.refresh_confirmed(previous), ..self }
        } else {
            self.refresh_interrupted()
        }
    }

    /// After the terminal shutdown started.
    pub open spec fn shutdown_requested(self) -> RuntimeState {
        RuntimeState { lifecycle: self.lifecycle.shutdown_requested(), ..self }
    }

    /// After a terminal shutdown ended with `failures`.
    pub open spec fn shutdown_ended(self, failures: Seq<Seq<char>>) -> RuntimeState {
        RuntimeState { lifecycle: self.lifecycle.shutdown_ended(failures), ..self }
    }

    /// The runtime answers for `connections`: they are published, or retired and unconfirmed.
    pub open spec fn tracks(self, connections: McpConnectionSet) -> bool {
        self.connections == connections || self.lifecycle.retired.contains(connections)
    }

    /// The shutdown stops every generation that the runtime answers for.
    pub open spec fn covered_by(self, shutdown: ShutdownState) -> bool {
        forall|connections: McpConnectionSet| #[trigger]
            self.tracks(connections) ==> covers(shutdown.targets, connections)
    }
}

impl McpRuntime {
    /// A runtime that has published `connections`.
    pub fn new(connections: McpConnectionSet) -> (runtime: Self)
        ensures
            runtime@ == RuntimeState::fresh(connections),
    {
        McpRuntime { connections, lifecycle: McpRuntimeLifecycle::new() }
    }

    /// The published connection set.
    pub fn snapshot(&self) -> (connections: McpConnectionSet)
        ensures
            connections == self@.connections,
    {
        self.connections
    }

    /// Starts a refresh, unless the shutdown has started or another refresh is in progress.
    pub fn begin_refresh(&mut self) -> (refresh: Result<McpRuntimeRefresh, McpRuntimeError>)
        ensures
            final(self)@ == old(self)@.refresh_requested(),
            match refresh {
                Ok(_) => old(self)@.lifecycle.may_refresh(),
                Err(error) => if old(self)@.lifecycle.shutdown_started {
                    error == McpRuntimeError::ShutdownStarted
                } else {
                    old(self)@.lifecycle.refresh_in_progress && error
                        == McpRuntimeError::RefreshInProgress
                },
            },
    {
        match self.lifecycle.begin_refresh() {
            Ok(_) => Ok(McpRuntimeRefresh { open: () }),
            Err(error) => Err(error),
        }
    }

    /// Starts the terminal shutdown. No refresh can start or publish from here on.
    pub fn begin_shutdown(&mut self) -> (shutdown: McpRuntimeShutdown)
        ensures
            final(self)@ == old(self)@.shutdown_requested(),
            shutdown@ == started_shutdown(old(self)@.lifecycle, old(self)@.connections),
    {
        let current = self.connections;
        self.lifecycle.begin_shutdown(current)
    }

    /// Ends the terminal shutdown once every generation has reported. It is confirmed only where
    /// all owned processes are gone; an interrupted refresh makes that impossible for good.
    pub fn shutdown_confirmed(&mut self, shutdown: McpRuntimeShutdown) -> (confirmed: Result<
        (),
        McpRuntimeError,
    >)
        requires
            shutdown@.complete(),
        ensures
            final(self)@ == old(self)@.shutdown_ended(shutdown@.failures()),
            match confirmed {
                Ok(_) => shutdown@.failures().len() == 0,
                Err(error) => shutdown@.failures().len() > 0 && (error matches
                    McpRuntimeError::ShutdownUnconfirmed(failures) && texts(failures@)
                    == shutdown@.failures()),
            },
    {
        self.lifecycle.finish_shutdown(shutdown)
    }
}

impl McpRuntimeRefresh {
    /// Publishes a new generation and retires its predecessor, unless the shutdown has started.
    /// A refused refresh is interrupted.
    pub fn publish(self, runtime: &mut McpRuntime, connections: McpConnectionSet) -> (published:
        Result<McpRuntimePublication, McpRuntimeError>)
        ensures
            final(runtime)@ == old(runtime)@.publish_requested(connections),
            match published {
                Ok(publication) => {
                    &&& old(runtime)@.may_publish()
                    &&& publication@.connections == connections
                    &&& publication@.previous == old(runtime)@.connections
                },
                Err(error) => {
                    &&& !old(runtime)@.may_publish()
                    &&& error == if old(runtime)@.lifecycle.shutdown_started {
                        McpRuntimeError::ShutdownBeforePublication
                    } else {
                        McpRuntimeError::LifecycleLost
                    }
                },
            },
    {
        if runtime.lifecycle.shutdown_started {
            self.interrupted(runtime);
            return Err(McpRuntimeError::ShutdownBeforePublication);
        }
        if !runtime.lifecycle.refresh_in_progress {
            self.interrupted(runtime);
            return Err(McpRuntimeError::LifecycleLost);
        }
        let previous = runtime.connections;
        runtime.connections = connections;
        runtime.lifecycle.retire(previous);
        Ok(McpRuntimePublication { connections, previous })
    }

    /// Ends a refresh that did not publish.
    pub fn interrupted(self, runtime: &mut McpRuntime)
        ensures
            final(runtime)@ == old(runtime)@.refresh_interrupted(),
    {
        runtime.lifecycle.interrupt_refresh();
    }
}

impl McpRuntimePublication {
    /// The published generation.
    pub fn connections(&self) -> (connections: McpConnectionSet)
        ensures
            connections == self@.connections,
    {
        self.connections
    }

    /// Its predecessor, which is stopped next.
    pub fn previous(&self) -> (previous: McpConnectionSet)
        ensures
            previous == self@.previous,
    {
        self.previous
    }

    /// Ends the refresh with the report on the predecessor's shutdown. Where that is not
    /// confirmed the refresh is interrupted.
    pub fn confirm(self, runtime: &mut McpRuntime, stopped: Result<(), String>) -> (confirmed:
        Result<(), McpRuntimeError>)
        ensures
            final(runtime)@ == old(runtime)@.predecessor_reported(self@.previous, stopped is Ok),
            match stopped {
                Ok(_) => confirmed is Ok,
                Err(reason) => confirmed == Err::<(), _>(
                    McpRuntimeError::PreviousUnconfirmed(reason),
                ),
            },
    {
        match stopped {
            Ok(_) => {
                runtime.lifecycle.confirm_refresh(self.previous);
                Ok(())
            },
            Err(reason) => {
                self.interrupted(runtime);
                Err(McpRuntimeError::PreviousUnconfirmed(reason))
            },
        }
    }

    /// Ends a publication whose predecessor was not reported on.
    pub fn interrupted(self, runtime: &mut McpRuntime)
        ensures
            final(runtime)@ == old(runtime)@.refresh_interrupted(),
    {
        runtime.lifecycle.interrupt_refresh();
    }
}

/// A refresh that has not ended.
pub enum OpenRefresh {
    /// There is none.
    Idle,
    /// It is constructing its connection set.
    Constructing,
    /// It has published, and its predecessor has not reported.
    Published(McpConnectionSet),
}

/// A runtime together with the refresh that it has handed out and the terminal shutdowns that
/// were started.
#[verifier::ext_equal]
pub struct RuntimeHistory {
    pub runtime: RuntimeState,
    pub open: OpenRefresh,
    pub shutdowns: Seq<ShutdownState>,
}

/// One operation on a runtime.
pub enum RuntimeEvent {
    BeginRefresh,
    Publish(McpConnectionSet),
    InterruptRefresh,
    /// The predecessor confirmed its shutdown, or did not.
    Confirm(bool),
    InterruptPublication,
    BeginShutdown,
    /// A terminal shutdown ends in this state.
    FinishShutdown(ShutdownState),
}

impl RuntimeHistory {
    /// A new runtime.
    pub open spec fn fresh(connections: McpConnectionSet) -> RuntimeHistory {
        RuntimeHistory {
            runtime: RuntimeState::fresh(connections),
            open: OpenRefresh::Idle,
            shutdowns: Seq::empty(),
        }
    }

    /// The refresh or the shutdown that the event needs is there.
    pub open spec fn allows(self, event: RuntimeEvent) -> bool {
        match event {
            RuntimeEvent::Publish(_) | RuntimeEvent::InterruptRefresh => self.open
                == OpenRefresh::Constructing,
            RuntimeEvent::Confirm(_) | RuntimeEvent::InterruptPublication => self.open is Published,
            RuntimeEvent::FinishShutdown(shutdown) => exists|i: int|
                0 <= i < self.shutdowns.len() && shutdown.completes(#[trigger] self.shutdowns[i]),
            RuntimeEvent::BeginRefresh | RuntimeEvent::BeginShutdown => true,
        }
    }

    /// After the event.
    pub open spec fn after(self, event: RuntimeEvent) -> RuntimeHistory {
        match event {
            RuntimeEvent::BeginRefresh => RuntimeHistory {
                runtime: self.runtime.refresh_requested(),
                open: if self.runtime.lifecycle.may_refresh() {
                    OpenRefresh::Constructing
                } else {
                    self.open
                },
                ..self
            },
            RuntimeEvent::Publish(connections) => RuntimeHistory {
                runtime: self.runtime.publish_requested(connections),
                open: if self.runtime.may_publish() {
                    OpenRefresh::Published(self.runtime.connections)
                } else {
                    OpenRefresh::Idle
                },
                ..self
            },
            RuntimeEvent::InterruptRefresh | RuntimeEvent::InterruptPublication => RuntimeHistory {
                runtime: self.runtime.refresh_interrupted(),
                open: OpenRefresh::Idle,
                ..self
            },
            RuntimeEvent::Confirm(stopped) => RuntimeHistory {
                runtime: self.runtime.predecessor_reported(self.open->Published_0, stopped),
                open: OpenRefresh::Idle,
                ..self
            },
            RuntimeEvent::BeginShutdown => RuntimeHistory {
                runtime: self.runtime.shutdown_requested(),
                shutdowns: self.shutdowns.push(
                    started_shutdown(self.runtime.lifecycle, self.runtime.connections),
                ),
                ..self
            },
            RuntimeEvent::FinishShutdown(shutdown) => RuntimeHistory {
                runtime: self.runtime.shutdown_ended(shutdown.failures()),
                ..self
            },
        }
    }

    /// Every event finds the refresh that it needs.
    pub open spec fn allows_all(self, events: Seq<RuntimeEvent>) -> bool
        decreases events.len(),
    {
        events.len() == 0 || (self.allows(events[0]) && self.after(events[0]).allows_all(
            events.skip(1),
        ))
    }

    /// After all the events.
    pub open spec fn after_all(self, events: Seq<RuntimeEvent>) -> RuntimeHistory
        decreases events.len(),
    {
        if events.len() == 0 {
            self
        } else {
            self.after(events[0]).after_all(events.skip(1))
        }
    }

    /// The event reports that the processes of `connections` are gone.
    pub open spec fn reports_stopped(
        self,
        event: RuntimeEvent,
        connections: McpConnectionSet,
    ) -> bool {
        match event {
            RuntimeEvent::Confirm(stopped) => stopped && self.open == OpenRefresh::Published(
                connections,
            ),
            RuntimeEvent::FinishShutdown(shutdown) => shutdown.confirms(connections),
            _ => false,
        }
    }

    /// A refresh is marked as in progress exactly while one has not ended, a published refresh's
    /// predecessor is retired, and a shutdown that found no refresh in progress stops every
    /// generation that the runtime answers for.
    pub open spec fn consistent(self) -> bool {
        &&& self.runtime.lifecycle.refresh_in_progress == (self.open != OpenRefresh::Idle)
        &&& match self.open {
            OpenRefresh::Published(previous) => self.runtime.lifecycle.retired.contains(previous),
            _ => true,
        }
        &&& self.shutdowns.len() > 0 ==> self.runtime.lifecycle.shutdown_started
        &&& forall|i: int|
            0 <= i < self.shutdowns.len() && !(#[trigger] self.shutdowns[i]).refresh_in_progress
                ==> self.open == OpenRefresh::Idle && self.runtime.covered_by(self.shutdowns[i])
    }
}

/// Every operation keeps a runtime consistent.
pub proof fn events_keep_consistency(history: RuntimeHistory, event: RuntimeEvent)
    requires
        history.consistent(),
        history.allows(event),
    ensures
        history.after(event).consistent(),
{
    let next = history.after(event);
    let lifecycle = history.runtime.lifecycle;
    match event {
        RuntimeEvent::Publish(connections) => {
            pushed_contains(
                lifecycle.retired,
                history.runtime.connections,
                history.runtime.connections,
            );
        },
        RuntimeEvent::FinishShutdown(shutdown) => {
            if shutdown.failures().len() == 0 {
                confirmed_shutdown_stopped_its_targets(shutdown);
                let i = choose|i: int|
                    0 <= i < history.shutdowns.len() && shutdown.completes(
                        #[trigger] history.shutdowns[i],
                    );
                assert(!history.shutdowns[i].refresh_in_progress);
            }
        },
        _ => {},
    }
    assert forall|i: int|
        0 <= i < next.shutdowns.len() && !(
        #[trigger] next.shutdowns[i]).refresh_in_progress implies next.open == OpenRefresh::Idle
        && next.runtime.covered_by(next.shutdowns[i]) by {
        assert forall|connections: McpConnectionSet| #[trigger]
            next.runtime.tracks(connections) implies covers(next.shutdowns[i].targets, connections) by {
            if i < history.shutdowns.len() {
                assert(next.shutdowns[i] == history.shutdowns[i]);
                assert(history.runtime.tracks(connections));
            } else {
                shutdown_covers_every_generation(
                    history.runtime.connections,
                    lifecycle.retired,
                    connections,
                );
            }
        }
        if i < history.shutdowns.len() {
            assert(next.shutdowns[i] == history.shutdowns[i]);
        }
    }
}

/// Every history of a consistent runtime is consistent: in particular no two refreshes are ever open at
/// a time, and none goes unmarked.
pub proof fn histories_are_consistent(history: RuntimeHistory, events: Seq<RuntimeEvent>)
    requires
        history.consistent(),
        history.allows_all(events),
    ensures
        history.after_all(events).consistent(),
    decreases events.len(),
{
    if events.len() > 0 {
        events_keep_consistency(history, events[0]);
        histories_are_consistent(history.after(events[0]), events.skip(1));
    }
}

/// A new runtime is consistent.
pub proof fn new_runtimes_are_consistent(connections: McpConnectionSet)
    ensures
        RuntimeHistory::fresh(connections).consistent(),
{
}

/// A runtime answers for a generation until its processes are reported gone: no operation loses
/// one, not an interrupted or refused refresh and not an unconfirmed shutdown either.
pub proof fn generations_are_retained_until_stopped(
    history: RuntimeHistory,
    event: RuntimeEvent,
    connections: McpConnectionSet,
)
    requires
        history.consistent(),
        history.allows(event),
        history.runtime.tracks(connections),
    ensures
        history.after(event).runtime.tracks(connections) || history.reports_stopped(event, connections),
{
    let lifecycle = history.runtime.lifecycle;
    match event {
        RuntimeEvent::Publish(_) => {
            pushed_contains(lifecycle.retired, history.runtime.connections, connections);
        },
        RuntimeEvent::Confirm(_) => {
            without_keeps_the_others(lifecycle.retired, history.open->Published_0, connections);
        },
        RuntimeEvent::FinishShutdown(shutdown) => {
            if shutdown.failures().len() == 0 {
                confirmed_shutdowns_stop_every_generation(history, shutdown, connections);
            }
        },
        _ => {},
    }
}

/// A terminal shutdown is confirmed only where every generation that the runtime answers for was
/// stopped and confirmed that.
pub proof fn confirmed_shutdowns_stop_every_generation(
    history: RuntimeHistory,
    shutdown: ShutdownState,
    connections: McpConnectionSet,
)
    requires
        history.consistent(),
        history.allows(RuntimeEvent::FinishShutdown(shutdown)),
        shutdown.failures().len() == 0,
        history.runtime.tracks(connections),
    ensures
        shutdown.confirms(connections),
{
    confirmed_shutdown_stopped_its_targets(shutdown);
    let i = choose|i: int|
        0 <= i < history.shutdowns.len() && shutdown.completes(#[trigger] history.shutdowns[i]);
    assert(history.runtime.covered_by(history.shutdowns[i]));
    assert(covers(history.shutdowns[i].targets, connections));
}

/// The taint of an interrupted refresh is permanent, and so is the start of the shutdown: no
/// later operation, not a successful refresh either, takes them back.
pub proof fn taint_and_shutdown_are_permanent(history: RuntimeHistory, events: Seq<RuntimeEvent>)
    ensures
        history.runtime.lifecycle.refresh_tainted ==> history.after_all(
            events,
        ).runtime.lifecycle.refresh_tainted,
        history.runtime.lifecycle.shutdown_started ==> history.after_all(
            events,
        ).runtime.lifecycle.shutdown_started,
    decreases events.len(),
{
    if events.len() > 0 {
        taint_and_shutdown_are_permanent(history.after(events[0]), events.skip(1));
    }
}

/// Once a refresh was interrupted, refused while another was open, or cut off by the shutdown, the
/// runtime is tainted and no terminal shutdown is ever confirmed again, whatever happens in
/// between and whatever the generations report.
pub proof fn interrupted_refreshes_prevent_confirmed_shutdown(
    history: RuntimeHistory,
    events: Seq<RuntimeEvent>,
    outcomes: Seq<Option<Seq<char>>>,
)
    requires
        history.runtime.lifecycle.refresh_tainted,
    ensures
        ({
            let later = history.after_all(events);
            let started = started_shutdown(later.runtime.lifecycle, later.runtime.connections);
            (ShutdownState { outcomes, ..started }).failures().contains(
                "an interrupted MCP refresh left a process lifecycle unconfirmed"@,
            )
        }),
{
    let later = history.after_all(events);
    taint_and_shutdown_are_permanent(history, events);
    let started = started_shutdown(later.runtime.lifecycle, later.runtime.connections);
    let ended = ShutdownState { outcomes, ..started };
    let first = refresh_failures(ended.refresh_in_progress, ended.refresh_tainted);
    assert(ended.failures()[first.len() - 1]
        == "an interrupted MCP refresh left a process lifecycle unconfirmed"@);
}

/// A refresh that ends otherwise than by a confirmed predecessor taints the runtime: one that is
/// interrupted before or after publication, one that publishes too late, one whose predecessor
/// fails, and a second one while another is open.
pub proof fn refreshes_that_go_wrong_taint(history: RuntimeHistory, connections: McpConnectionSet)
    ensures
        history.after(RuntimeEvent::InterruptRefresh).runtime.lifecycle.refresh_tainted,
        history.after(RuntimeEvent::InterruptPublication).runtime.lifecycle.refresh_tainted,
        history.after(RuntimeEvent::Confirm(false)).runtime.lifecycle.refresh_tainted,
        !history.runtime.may_publish() ==> history.after(
            RuntimeEvent::Publish(connections),
        ).runtime.lifecycle.refresh_tainted,
        !history.runtime.lifecycle.shutdown_started
            && history.runtime.lifecycle.refresh_in_progress ==> history.after(
            RuntimeEvent::BeginRefresh,
        ).runtime.lifecycle.refresh_tainted,
{
}

/// Once a shutdown has started, no refresh starts and none publishes, whatever happens in
/// between: the published generation stays the same.
pub proof fn shutdown_blocks_refresh_and_publication(
    history: RuntimeHistory,
    events: Seq<RuntimeEvent>,
)
    requires
        history.runtime.lifecycle.shutdown_started,
    ensures
        !history.after_all(events).runtime.lifecycle.may_refresh(),
        !history.after_all(events).runtime.may_publish(),
        history.after_all(events).runtime.connections == history.runtime.connections,
    decreases events.len(),
{
    if events.len() > 0 {
        shutdown_blocks_refresh_and_publication(history.after(events[0]), events.skip(1));
    }
}

} // verus!
