//! Connection-set generations: which of them a runtime still answers for, and what a terminal
//! shutdown has to stop.

use crate::sequences::without;
use crate::text::{decimal, decimal_text, join, joined, optional_text, texts};
use vstd::prelude::*;
use vstd::string::*;

verus! {

/// A handle on one set of MCP connections. Two handles with the same number are the same set.
#[derive(Clone, Copy, Debug, PartialEq, Eq, Structural)]
pub struct McpConnectionSet {
    pub id: u64,
}

/// Why an operation on an MCP runtime was refused or could not be confirmed.
#[derive(Clone, Debug, PartialEq, Eq)]
pub enum McpRuntimeError {
    /// The terminal shutdown has started.
    ShutdownStarted,
    /// Another refresh is in progress.
    RefreshInProgress,
    /// The terminal shutdown started before the new generation was published.
    ShutdownBeforePublication,
    /// The refresh was no longer in progress when it published.
    LifecycleLost,
    /// A refresh is in progress, or one was interrupted.
    RefreshUnconfirmed,
    /// The previous generation did not confirm its shutdown.
    PreviousUnconfirmed(String),
    /// The replaced connections did not confirm their shutdown.
    ReplacedUnconfirmed(String),
    /// The terminal shutdown could not be confirmed, for these reasons.
    ShutdownUnconfirmed(Vec<String>),
}

impl McpRuntimeError {
    /// The text of the error.
    pub open spec fn text(self) -> Seq<char> {
        match self {
            McpRuntimeError::ShutdownStarted => "MCP runtime shutdown has already started"@,
            McpRuntimeError::RefreshInProgress =>
                "another MCP runtime refresh is already in progress"@,
            McpRuntimeError::ShutdownBeforePublication =>
                "MCP runtime shutdown started before refresh publication"@,
            McpRuntimeError::LifecycleLost =>
                "MCP runtime refresh publication lost its lifecycle"@,
            McpRuntimeError::RefreshUnconfirmed =>
                "MCP runtime refresh cleanup could not be confirmed"@,
            McpRuntimeError::PreviousUnconfirmed(reason) =>
                "previous MCP generation shutdown could not be confirmed: "@ + reason@,
            McpRuntimeError::ReplacedUnconfirmed(reason) => reason@,
            McpRuntimeError::ShutdownUnconfirmed(failures) =>
                "MCP runtime shutdown could not be confirmed: "@ + joined(
                texts(failures@),
                "; "@,
            ),
        }
    }

    /// Writes the error as text.
    pub fn message(&self) -> (message: String)
        ensures
            message@ == self.text(),
    {
        match self {
            McpRuntimeError::ShutdownStarted => {
                "MCP runtime shutdown has already started".to_string()
            },
            McpRuntimeError::RefreshInProgress => {
                "another MCP runtime refresh is already in progress".to_string()
            },
            McpRuntimeError::ShutdownBeforePublication => {
                "MCP runtime shutdown started before refresh publication".to_string()
            },
            McpRuntimeError::LifecycleLost => {
                "MCP runtime refresh publication lost its lifecycle".to_string()
            },
            McpRuntimeError::RefreshUnconfirmed => {
                "MCP runtime refresh cleanup could not be confirmed".to_string()
            },
            McpRuntimeError::PreviousUnconfirmed(reason) => {
                let mut message =
                    "previous MCP generation shutdown could not be confirmed: ".to_string();
                message.append(reason.as_str());
                message
            },
            McpRuntimeError::ReplacedUnconfirmed(reason) => reason.clone(),
            McpRuntimeError::ShutdownUnconfirmed(failures) => {
                let mut message = "MCP runtime shutdown could not be confirmed: ".to_string();
                message.append(join(failures, "; ").as_str());
                message
            },
        }
    }
}

/// What a runtime remembers of its refreshes.
pub struct McpRuntimeLifecycle {
    /// Generations that were replaced and have not confirmed their shutdown.
    pub retired: Vec<McpConnectionSet>,
    pub refresh_in_progress: bool,
    /// Set once a refresh was interrupted, and never cleared: a process that it launched may be
    /// out of reach.
    pub refresh_tainted: bool,
    pub shutdown_started: bool,
}

/// The state of a lifecycle.
#[verifier::ext_equal]
pub struct LifecycleState {
    pub retired: Seq<McpConnectionSet>,
    pub refresh_in_progress: bool,
    pub refresh_tainted: bool,
    pub shutdown_started: bool,
}

impl View for McpRuntimeLifecycle {
    type V = LifecycleState;

    open spec fn view(&self) -> LifecycleState {
        LifecycleState {
            retired: self.retired@,
            refresh_in_progress: self.refresh_in_progress,
            refresh_tainted: self.refresh_tainted,
            shutdown_started: self.shutdown_started,
        }
    }
}

/// One generation that a terminal shutdown stops.
#[derive(Clone, Copy, Debug, PartialEq, Eq, Structural)]
pub struct ShutdownTarget {
    pub connections: McpConnectionSet,
    /// The generation's place among the retired ones; none for the current generation.
    pub retired_index: Option<usize>,
}

/// A terminal shutdown under way: what it found when it started, the generations to stop, and
/// what those that were stopped so far reported.
pub struct McpRuntimeShutdown {
    refresh_in_progress: bool,
    refresh_tainted: bool,
    targets: Vec<ShutdownTarget>,
    /// For each target that reported: nothing where its shutdown was confirmed, else the reason.
    outcomes: Vec<Option<String>>,
}

/// The state of a terminal shutdown.
#[verifier::ext_equal]
pub struct ShutdownState {
    pub refresh_in_progress: bool,
    pub refresh_tainted: bool,
    pub targets: Seq<ShutdownTarget>,
    pub outcomes: Seq<Option<Seq<char>>>,
}

impl View for McpRuntimeShutdown {
    type V = ShutdownState;

    closed spec fn view(&self) -> ShutdownState {
        ShutdownState {
            refresh_in_progress: self.refresh_in_progress,
            refresh_tainted: self.refresh_tainted,
            targets: self.targets@,
            outcomes: self.outcomes@.map_values(|outcome: Option<String>| optional_text(outcome)),
        }
    }
}

/// The retired generations that a shutdown stops besides `current`, in order.
pub open spec fn retired_targets(
    current: McpConnectionSet,
    retired: Seq<McpConnectionSet>,
) -> Seq<ShutdownTarget>
    decreases retired.len(),
{
    if retired.len() == 0 {
        Seq::empty()
    } else {
        let before = retired_targets(current, retired.drop_last());
        if retired.last() == current {
            before
        } else {
            before.push(
                ShutdownTarget {
                    connections: retired.last(),
                    retired_index: Some((retired.len() - 1) as usize),
                },
            )
        }
    }
}

/// The generations that a shutdown stops: the current one, then the retired ones.
pub open spec fn shutdown_targets(
    current: McpConnectionSet,
    retired: Seq<McpConnectionSet>,
) -> Seq<ShutdownTarget> {
    seq![ShutdownTarget { connections: current, retired_index: None }] + retired_targets(
        current,
        retired,
    )
}

/// The shutdown that starts in a lifecycle whose current generation is `current`.
pub open spec fn started_shutdown(
    lifecycle: LifecycleState,
    current: McpConnectionSet,
) -> ShutdownState {
    ShutdownState {
        refresh_in_progress: lifecycle.refresh_in_progress,
        refresh_tainted: lifecycle.refresh_tainted,
        targets: shutdown_targets(current, lifecycle.retired),
        outcomes: Seq::empty(),
    }
}

/// The failures that a shutdown finds before it stops anything.
pub open spec fn refresh_failures(in_progress: bool, tainted: bool) -> Seq<Seq<char>> {
    let first = if in_progress {
        seq!["an MCP refresh remains in progress, so its process lifecycle is unconfirmed"@]
    } else {
        Seq::empty()
    };
    if tainted {
        first.push("an interrupted MCP refresh left a process lifecycle unconfirmed"@)
    } else {
        first
    }
}

/// How a failure names its generation.
pub open spec fn target_label(target: ShutdownTarget) -> Seq<char> {
    match target.retired_index {
        None => "current generation: "@,
        Some(index) => "retired generation "@ + decimal_text(index as nat) + ": "@,
    }
}

/// The failures that the stopped generations reported, in order.
pub open spec fn reported_failures(
    targets: Seq<ShutdownTarget>,
    outcomes: Seq<Option<Seq<char>>>,
) -> Seq<Seq<char>>
    decreases outcomes.len(),
{
    if outcomes.len() == 0 {
        Seq::empty()
    } else {
        let before = reported_failures(targets, outcomes.drop_last());
        match outcomes.last() {
            Some(reason) => before.push(target_label(targets[outcomes.len() - 1]) + reason),
            None => before,
        }
    }
}

impl ShutdownState {
    /// Every generation has reported.
    pub open spec fn complete(self) -> bool {
        self.outcomes.len() == self.targets.len()
    }

    /// Everything that keeps the shutdown from being confirmed.
    pub open spec fn failures(self) -> Seq<Seq<char>> {
        refresh_failures(self.refresh_in_progress, self.refresh_tainted) + reported_failures(
            self.targets,
            self.outcomes,
        )
    }

    /// The shutdown after the next generation reported.
    pub open spec fn reported(self, outcome: Option<Seq<char>>) -> ShutdownState {
        ShutdownState { outcomes: self.outcomes.push(outcome), ..self }
    }
}

impl McpRuntimeShutdown {
    /// The generation to stop next; none once all have reported.
    pub fn next_target(&self) -> (target: Option<McpConnectionSet>)
        ensures
            match target {
                Some(connections) => self@.outcomes.len() < self@.targets.len() && connections
                    == self@.targets[self@.outcomes.len() as int].connections,
                None => self@.outcomes.len() >= self@.targets.len(),
            },
    {
        if self.outcomes.len() < self.targets.len() {
            Some(self.targets[self.outcomes.len()].connections)
        } else {
            None
        }
    }

    /// Records how the shutdown of that generation ended.
    pub fn record(&mut self, outcome: Result<(), String>)
        requires
            old(self)@.outcomes.len() < old(self)@.targets.len(),
        ensures
            final(self)@ == old(self)@.reported(
                match outcome {
                    Ok(_) => None,
                    Err(reason) => Some(reason@),
                },
            ),
    {
        let reason = match outcome {
            Ok(_) => None,
            Err(reason) => Some(reason),
        };
        self.outcomes.push(reason);
        assert(self@.outcomes =~= old(self)@.outcomes.push(optional_text(reason)));
    }

    /// Everything that keeps the shutdown from being confirmed.
    pub fn failures(&self) -> (failures: Vec<String>)
        requires
            self@.outcomes.len() <= self@.targets.len(),
        ensures
            texts(failures@) == self@.failures(),
    {
        let mut failures: Vec<String> = Vec::new();
        if self.refresh_in_progress {
            failures.push(
                "an MCP refresh remains in progress, so its process lifecycle is unconfirmed".to_string(),
            );
        }
        if self.refresh_tainted {
            failures.push(
                "an interrupted MCP refresh left a process lifecycle unconfirmed".to_string(),
            );
        }
        assert(texts(failures@) =~= refresh_failures(
            self.refresh_in_progress,
            self.refresh_tainted,
        ));
        let ghost found = texts(failures@);
        let ghost outcomes = self@.outcomes;
        assert(texts(failures@) =~= found + reported_failures(self.targets@, outcomes.take(0)));
        let mut i: usize = 0;
        while i < self.outcomes.len()
            invariant
                i <= self.outcomes@.len() <= self.targets@.len(),
                outcomes == self@.outcomes,
                texts(failures@) == found + reported_failures(
                    self.targets@,
                    outcomes.take(i as int),
                ),
            decreases self.outcomes@.len() - i,
        {
            assert(outcomes.take(i + 1).drop_last() == outcomes.take(i as int));
            let ghost before = failures@;
            if let Some(reason) = &self.outcomes[i] {
                let mut failure = match self.targets[i].retired_index {
                    None => "current generation: ".to_string(),
                    Some(index) => {
                        let mut label = "retired generation ".to_string();
                        label.append(decimal(index).as_str());
                        label.append(": ");
                        label
                    },
                };
                failure.append(reason.as_str());
                failures.push(failure);
                assert(texts(failures@) =~= texts(before).push(failure@));
                assert(texts(failures@) =~= found + reported_failures(
                    self.targets@,
                    outcomes.take(i + 1),
                ));
            }
            i += 1;
        }
        assert(outcomes.take(i as int) == outcomes);
        failures
    }
}

impl LifecycleState {
    /// The lifecycle of a new runtime.
    pub open spec fn fresh() -> LifecycleState {
        LifecycleState {
            retired: Seq::empty(),
            refresh_in_progress: false,
            refresh_tainted: false,
            shutdown_started: false,
        }
    }

    /// A refresh may start.
    pub open spec fn may_refresh(self) -> bool {
        !self.shutdown_started && !self.refresh_in_progress
    }

    /// After an attempt to start a refresh. An attempt during another refresh taints the runtime.
    pub open spec fn refresh_requested(self) -> LifecycleState {
        if self.shutdown_started {
            self
        } else if self.refresh_in_progress {
            self.tainted()
        } else {
            LifecycleState { refresh_in_progress: true, ..self }
        }
    }

    /// After a refresh was interrupted.
    pub open spec fn refresh_interrupted(self) -> LifecycleState {
        LifecycleState { refresh_in_progress: false, refresh_tainted: true, ..self }
    }

    /// After something was left that no shutdown can confirm.
    pub open spec fn tainted(self) -> LifecycleState {
        LifecycleState { refresh_tainted: true, ..self }
    }

    /// Every refresh is confirmed and the shutdown has not started.
    pub open spec fn usable(self) -> bool {
        !self.refresh_tainted && !self.refresh_in_progress && !self.shutdown_started
    }

    /// After `connections` were replaced and wait for their shutdown.
    pub open spec fn with_retired(self, connections: McpConnectionSet) -> LifecycleState {
        LifecycleState { retired: self.retired.push(connections), ..self }
    }

    /// After a refresh ended with the confirmed shutdown of `previous`.
    pub open spec fn refresh_confirmed(self, previous: McpConnectionSet) -> LifecycleState {
        LifecycleState {
            retired: without(self.retired, previous),
            refresh_in_progress: false,
            ..self
        }
    }

    /// After the terminal shutdown started.
    pub open spec fn shutdown_requested(self) -> LifecycleState {
        LifecycleState { shutdown_started: true, ..self }
    }

    /// After a terminal shutdown ended with `failures`.
    pub open spec fn shutdown_ended(self, failures: Seq<Seq<char>>) -> LifecycleState {
        if failures.len() == 0 {
            LifecycleState { retired: Seq::empty(), ..self }
        } else {
            self
        }
    }
}

impl McpRuntimeLifecycle {
    /// The lifecycle of a new runtime.
    pub fn new() -> (lifecycle: Self)
        ensures
            lifecycle@ == LifecycleState::fresh(),
    {
        McpRuntimeLifecycle {
            retired: Vec::new(),
            refresh_in_progress: false,
            refresh_tainted: false,
            shutdown_started: false,
        }
    }

    /// Marks the start of a refresh, unless the shutdown has started or another refresh is in
    /// progress.
    pub fn begin_refresh(&mut self) -> (begun: Result<(), McpRuntimeError>)
        ensures
            final(self)@ == old(self)@.refresh_requested(),
            match begun {
                Ok(_) => old(self)@.may_refresh(),
                Err(error) => if old(self)@.shutdown_started {
                    error == McpRuntimeError::ShutdownStarted
                } else {
                    old(self)@.refresh_in_progress && error == McpRuntimeError::RefreshInProgress
                },
            },
    {
        if self.shutdown_started {
            return Err(McpRuntimeError::ShutdownStarted);
        }
        if self.refresh_in_progress {
            self.refresh_tainted = true;
            return Err(McpRuntimeError::RefreshInProgress);
        }
        self.refresh_in_progress = true;
        Ok(())
    }

    /// Marks a refresh as interrupted.
    pub fn interrupt_refresh(&mut self)
        ensures
            final(self)@ == old(self)@.refresh_interrupted(),
    {
        self.refresh_in_progress = false;
        self.refresh_tainted = true;
    }

    /// Records that something was left that no shutdown can confirm.
    pub fn taint(&mut self)
        ensures
            final(self)@ == old(self)@.tainted(),
    {
        self.refresh_tainted = true;
    }

    /// Keeps a replaced generation for cleanup.
    pub fn retire(&mut self, connections: McpConnectionSet)
        ensures
            final(self)@ == old(self)@.with_retired(connections),
    {
        self.retired.push(connections);
    }

    /// Ends a refresh whose replaced generation `previous` has confirmed its shutdown.
    pub fn confirm_refresh(&mut self, previous: McpConnectionSet)
        ensures
            final(self)@ == old(self)@.refresh_confirmed(previous),
    {
        let mut kept: Vec<McpConnectionSet> = Vec::new();
        let mut i: usize = 0;
        while i < self.retired.len()
            invariant
                i <= self.retired@.len(),
                *self == *old(self),
                kept@ == without(self.retired@.take(i as int), previous),
            decreases self.retired@.len() - i,
        {
            assert(self.retired@.take(i + 1).drop_last() == self.retired@.take(i as int));
            let connections = self.retired[i];
            if connections != previous {
                kept.push(connections);
            }
            i += 1;
        }
        assert(self.retired@.take(i as int) == self.retired@);
        self.retired = kept;
        self.refresh_in_progress = false;
    }

    /// Starts the terminal shutdown of the current and the retired generations.
    pub fn begin_shutdown(&mut self, current: McpConnectionSet) -> (shutdown: McpRuntimeShutdown)
        ensures
            final(self)@ == old(self)@.shutdown_requested(),
            shutdown@ == started_shutdown(old(self)@, current),
    {
        self.shutdown_started = true;
        let mut targets: Vec<ShutdownTarget> = Vec::new();
        targets.push(ShutdownTarget { connections: current, retired_index: None });
        let ghost first = targets@;
        let mut i: usize = 0;
        assert(targets@ =~= first + retired_targets(current, self.retired@.take(0)));
        while i < self.retired.len()
            invariant
                i <= self.retired@.len(),
                targets@ == first + retired_targets(current, self.retired@.take(i as int)),
                self@ == old(self)@.shutdown_requested(),
            decreases self.retired@.len() - i,
        {
            assert(self.retired@.take(i + 1).drop_last() == self.retired@.take(i as int));
            let connections = self.retired[i];
            if connections != current {
                targets.push(ShutdownTarget { connections, retired_index: Some(i) });
            }
            i += 1;
            assert(targets@ =~= first + retired_targets(current, self.retired@.take(i as int)));
        }
        assert(self.retired@.take(i as int) == self.retired@);
        let shutdown = McpRuntimeShutdown {
            refresh_in_progress: self.refresh_in_progress,
            refresh_tainted: self.refresh_tainted,
            targets,
            outcomes: Vec::new(),
        };
        assert(shutdown@ =~= started_shutdown(old(self)@, current));
        shutdown
    }

    /// Ends a terminal shutdown in which every generation has reported: it is confirmed exactly
    /// where nothing failed, and then no generation remains.
    pub fn finish_shutdown(&mut self, shutdown: McpRuntimeShutdown) -> (confirmed: Result<
        (),
        McpRuntimeError,
    >)
        requires
            shutdown@.complete(),
        ensures
            final(self)@ == old(self)@.shutdown_ended(shutdown@.failures()),
            match confirmed {
                Ok(_) => shutdown@.failures().len() == 0,
                Err(error) => shutdown@.failures().len() > 0 && (error matches
                    McpRuntimeError::ShutdownUnconfirmed(failures) && texts(failures@)
                    == shutdown@.failures()),
            },
    {
        let failures = shutdown.failures();
        assert(texts(failures@).len() == failures@.len());
        if failures.len() == 0 {
            self.retired.clear();
            assert(self@ =~= old(self)@.shutdown_ended(shutdown@.failures()));
            Ok(())
        } else {
            Err(McpRuntimeError::ShutdownUnconfirmed(failures))
        }
    }

    /// Refuses use of a runtime whose refreshes are not all confirmed, or that is shut down.
    pub fn ensure_refresh_confirmed(&self) -> (confirmed: Result<(), McpRuntimeError>)
        ensures
            match confirmed {
                Ok(_) => self@.usable(),
                Err(error) => if self@.refresh_tainted || self@.refresh_in_progress {
                    error == McpRuntimeError::RefreshUnconfirmed
                } else {
                    self@.shutdown_started && error == McpRuntimeError::ShutdownStarted
                },
            },
    {
        if self.refresh_tainted || self.refresh_in_progress {
            return Err(McpRuntimeError::RefreshUnconfirmed);
        }
        if self.shutdown_started {
            return Err(McpRuntimeError::ShutdownStarted);
        }
        Ok(())
    }
}

/// `connections` are among the generations that a shutdown stops.
pub open spec fn covers(targets: Seq<ShutdownTarget>, connections: McpConnectionSet) -> bool {
    exists|i: int| 0 <= i < targets.len() && (#[trigger] targets[i]).connections == connections
}

impl ShutdownState {
    /// The shutdown stopped `connections`, and that was confirmed.
    pub open spec fn confirms(self, connections: McpConnectionSet) -> bool {
        exists|i: int|
            0 <= i < self.targets.len() && i < self.outcomes.len() && (
            #[trigger] self.targets[i]).connections == connections && self.outcomes[i] is None
    }

    /// The shutdown started as `started` and every generation has reported since.
    pub open spec fn completes(self, started: ShutdownState) -> bool {
        &&& self.refresh_in_progress == started.refresh_in_progress
        &&& self.refresh_tainted == started.refresh_tainted
        &&& self.targets == started.targets
        &&& self.complete()
    }
}

proof fn retired_targets_cover_the_retired(
    current: McpConnectionSet,
    retired: Seq<McpConnectionSet>,
    connections: McpConnectionSet,
)
    requires
        retired.contains(connections),
        connections != current,
    ensures
        covers(retired_targets(current, retired), connections),
    decreases retired.len(),
{
    let before = retired.drop_last();
    let targets = retired_targets(current, before);
    let all = retired_targets(current, retired);
    if retired.last() == connections {
        assert(all.last().connections == connections);
    } else {
        let i = choose|i: int| 0 <= i < retired.len() && retired[i] == connections;
        assert(before[i] == connections);
        retired_targets_cover_the_retired(current, before, connections);
        let j = choose|j: int|
            0 <= j < targets.len() && (#[trigger] targets[j]).connections == connections;
        assert(all[j] == targets[j]);
    }
}

/// A terminal shutdown stops the current generation and every retired one.
pub proof fn shutdown_covers_every_generation(
    current: McpConnectionSet,
    retired: Seq<McpConnectionSet>,
    connections: McpConnectionSet,
)
    requires
        connections == current || retired.contains(connections),
    ensures
        covers(shutdown_targets(current, retired), connections),
{
    let targets = shutdown_targets(current, retired);
    if connections == current {
        assert(targets[0].connections == connections);
    } else {
        retired_targets_cover_the_retired(current, retired, connections);
        let rest = retired_targets(current, retired);
        let j = choose|j: int|
            0 <= j < rest.len() && (#[trigger] rest[j]).connections == connections;
        assert(targets[j + 1] == rest[j]);
    }
}

proof fn no_reported_failure_means_all_confirmed(
    targets: Seq<ShutdownTarget>,
    outcomes: Seq<Option<Seq<char>>>,
)
    requires
        reported_failures(targets, outcomes).len() == 0,
    ensures
        forall|i: int| 0 <= i < outcomes.len() ==> (#[trigger] outcomes[i]) is None,
    decreases outcomes.len(),
{
    if outcomes.len() > 0 {
        let before = outcomes.drop_last();
        assert(outcomes.last() is None);
        no_reported_failure_means_all_confirmed(targets, before);
        assert forall|i: int| 0 <= i < outcomes.len() implies (#[trigger] outcomes[i]) is None by {
            if i < before.len() {
                assert(before[i] == outcomes[i]);
            }
        }
    }
}

/// A complete shutdown without failures found no refresh in progress and none interrupted, and
/// each generation that it stopped confirmed that.
pub proof fn confirmed_shutdown_stopped_its_targets(shutdown: ShutdownState)
    requires
        shutdown.complete(),
        shutdown.failures().len() == 0,
    ensures
        !shutdown.refresh_in_progress,
        !shutdown.refresh_tainted,
        forall|connections: McpConnectionSet| #[trigger]
            covers(shutdown.targets, connections) ==> shutdown.confirms(connections),
{
    assert(reported_failures(shutdown.targets, shutdown.outcomes).len() == 0);
    no_reported_failure_means_all_confirmed(shutdown.targets, shutdown.outcomes);
    assert forall|connections: McpConnectionSet| #[trigger]
        covers(shutdown.targets, connections) implies shutdown.confirms(connections) by {
        let i = choose|i: int|
            0 <= i < shutdown.targets.len() && (#[trigger] shutdown.targets[i]).connections
                == connections;
        assert(shutdown.outcomes[i] is None);
    }
}

} // verus!
