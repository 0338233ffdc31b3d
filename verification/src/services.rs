//! The MCP connection managers of a session: the active one, and those whose shutdown is not
//! confirmed.
//!
//! The caller holds the session's lifecycle lock from the first to the last operation of an
//! installation or a shutdown, and stops managers in between.

use crate::sequences::{pushed_contains, without, without_keeps_the_others};
use crate::text::{join, joined, optional_text, texts};
use vstd::prelude::*;
use vstd::string::*;

verus! {

/// A handle on a connection manager. Two handles with the same number are the same manager.
#[derive(Clone, Copy, Debug, PartialEq, Eq, Structural)]
pub struct McpConnectionManager {
    pub id: u64,
}

/// What a session remembers of the managers that it replaced.
pub struct McpConnectionManagerLifecycle {
    /// Managers that were replaced and have not confirmed their shutdown.
    pub retired: Vec<McpConnectionManager>,
    /// Set before the construction of a replacement starts, and cleared once it is registered and
    /// every earlier manager has confirmed its shutdown.
    pub refresh_in_progress: bool,
    /// Set once a refresh was abandoned while a process that it launched may have been
    /// unregistered. A later successful refresh does not clear it.
    pub refresh_tainted: bool,
}

/// The part of a session's services that owns connection managers.
pub struct SessionServices {
    /// The latest manager.
    pub mcp_connection_manager: McpConnectionManager,
    pub mcp_connection_manager_lifecycle: McpConnectionManagerLifecycle,
}

/// The state of a session's managers.
#[verifier::ext_equal]
pub struct ServicesState {
    pub active: McpConnectionManager,
    pub retired: Seq<McpConnectionManager>,
    pub refresh_in_progress: bool,
    pub refresh_tainted: bool,
}

impl View for SessionServices {
    type V = ServicesState;

    open spec fn view(&self) -> ServicesState {
        ServicesState {
            active: self.mcp_connection_manager,
            retired: self.mcp_connection_manager_lifecycle.retired@,
            refresh_in_progress: self.mcp_connection_manager_lifecycle.refresh_in_progress,
            refresh_tainted: self.mcp_connection_manager_lifecycle.refresh_tainted,
        }
    }
}

impl ServicesState {
    /// A session that has replaced no manager.
    pub open spec fn fresh(active: McpConnectionManager) -> ServicesState {
        ServicesState {
            active,
            retired: Seq::empty(),
            refresh_in_progress: false,
            refresh_tainted: false,
        }
    }

    /// After `manager` became active.
    pub open spec fn replaced_by(self, manager: McpConnectionManager) -> ServicesState {
        ServicesState { active: manager, retired: self.retired.push(self.active), ..self }
    }

    /// After the replaced manager `previous` confirmed its shutdown, or did not.
    pub open spec fn predecessor_reported(
        self,
        previous: McpConnectionManager,
        stopped: bool,
    ) -> ServicesState {
        if stopped {
            ServicesState { retired: without(self.retired, previous), ..self }
        } else {
            self
        }
    }

    /// After a shutdown: the managers that failed to confirm it stay.
    pub open spec fn shut_down(self, shutdown: ManagerShutdownState) -> ServicesState {
        ServicesState { retired: shutdown.still_unconfirmed(), ..self }
    }

    /// The session answers for the manager: it is active, or retired and unconfirmed.
    pub open spec fn tracks(self, manager: McpConnectionManager) -> bool {
        self.active == manager || self.retired.contains(manager)
    }
}

/// A shutdown that waits for the active manager.
pub struct ActiveManagerShutdown {
    active: McpConnectionManager,
    refresh_in_progress: bool,
    refresh_tainted: bool,
}

/// What a shutdown that waits for the active manager has found.
pub struct ActiveShutdownState {
    pub active: McpConnectionManager,
    pub refresh_in_progress: bool,
    pub refresh_tainted: bool,
}

impl View for ActiveManagerShutdown {
    type V = ActiveShutdownState;

    closed spec fn view(&self) -> ActiveShutdownState {
        ActiveShutdownState {
            active: self.active,
            refresh_in_progress: self.refresh_in_progress,
            refresh_tainted: self.refresh_tainted,
        }
    }
}

impl ActiveManagerShutdown {
    /// The active manager, which is stopped first.
    pub fn manager(&self) -> (manager: McpConnectionManager)
        ensures
            manager == self@.active,
    {
        self.active
    }
}

/// A shutdown that stops the retired managers, in order.
pub struct RetiredManagersShutdown {
    active: McpConnectionManager,
    refresh_in_progress: bool,
    refresh_tainted: bool,
    /// Why the active manager's shutdown was not confirmed; none where it was.
    active_failure: Option<String>,
    retired: Vec<McpConnectionManager>,
    /// For each retired manager that reported: nothing where its shutdown was confirmed, else the
    /// reason.
    outcomes: Vec<Option<String>>,
}

/// The state of a shutdown that stops the retired managers.
#[verifier::ext_equal]
pub struct ManagerShutdownState {
    pub active: McpConnectionManager,
    pub refresh_in_progress: bool,
    pub refresh_tainted: bool,
    pub active_failure: Option<Seq<char>>,
    pub retired: Seq<McpConnectionManager>,
    pub outcomes: Seq<Option<Seq<char>>>,
}

/// The reason in a report on a manager's shutdown.
pub open spec fn reported_reason(report: Result<(), String>) -> Option<Seq<char>> {
    match report {
        Ok(_) => None,
        Err(reason) => Some(reason@),
    }
}

impl View for RetiredManagersShutdown {
    type V = ManagerShutdownState;

    closed spec fn view(&self) -> ManagerShutdownState {
        ManagerShutdownState {
            active: self.active,
            refresh_in_progress: self.refresh_in_progress,
            refresh_tainted: self.refresh_tainted,
            active_failure: optional_text(self.active_failure),
            retired: self.retired@,
            outcomes: self.outcomes@.map_values(|outcome: Option<String>| optional_text(outcome)),
        }
    }
}

/// The failures that the retired managers reported, in order.
pub open spec fn retired_failures(outcomes: Seq<Option<Seq<char>>>) -> Seq<Seq<char>>
    decreases outcomes.len(),
{
    if outcomes.len() == 0 {
        Seq::empty()
    } else {
        let before = retired_failures(outcomes.drop_last());
        match outcomes.last() {
            Some(reason) => before.push("retired manager: "@ + reason),
            None => before,
        }
    }
}

/// The managers that failed to confirm their shutdown, in order.
pub open spec fn failing_managers(
    managers: Seq<McpConnectionManager>,
    outcomes: Seq<Option<Seq<char>>>,
) -> Seq<McpConnectionManager>
    decreases outcomes.len(),
{
    if outcomes.len() == 0 {
        Seq::empty()
    } else {
        let before = failing_managers(managers, outcomes.drop_last());
        if outcomes.last() is Some {
            before.push(managers[outcomes.len() - 1])
        } else {
            before
        }
    }
}

/// The failures of a shutdown that do not come from a retired manager.
pub open spec fn leading_failures(
    in_progress: bool,
    tainted: bool,
    active_failure: Option<Seq<char>>,
) -> Seq<Seq<char>> {
    let first = if in_progress {
        seq![
            "an MCP refresh remains in progress or was interrupted before its full process lifecycle was confirmed"@,
        ]
    } else {
        Seq::empty()
    };
    let second = if tainted {
        first.push(
            "an earlier MCP refresh left an unregistered process lifecycle unconfirmed"@,
        )
    } else {
        first
    };
    match active_failure {
        Some(reason) => second.push("active manager: "@ + reason),
        None => second,
    }
}

impl ManagerShutdownState {
    /// The managers and the marks of the session are those that the shutdown found: nothing was
    /// installed since it started, and no other shutdown ended.
    pub open spec fn is_of(self, services: ServicesState) -> bool {
        &&& self.active == services.active
        &&& self.retired == services.retired
        &&& self.refresh_in_progress == services.refresh_in_progress
        &&& self.refresh_tainted == services.refresh_tainted
    }

    /// Every retired manager has reported.
    pub open spec fn complete(self) -> bool {
        self.outcomes.len() == self.retired.len()
    }

    /// Everything that keeps the shutdown from being confirmed.
    pub open spec fn failures(self) -> Seq<Seq<char>> {
        leading_failures(self.refresh_in_progress, self.refresh_tainted, self.active_failure)
            + retired_failures(self.outcomes)
    }

    /// The managers that failed to confirm the shutdown.
    pub open spec fn still_unconfirmed(self) -> Seq<McpConnectionManager> {
        failing_managers(self.retired, self.outcomes)
    }

    /// After the next retired manager reported.
    pub open spec fn reported(self, reason: Option<Seq<char>>) -> ManagerShutdownState {
        ManagerShutdownState { outcomes: self.outcomes.push(reason), ..self }
    }
}

impl RetiredManagersShutdown {
    /// The manager to stop next; none once all have reported.
    pub fn next_manager(&self) -> (manager: Option<McpConnectionManager>)
        ensures
            match manager {
                Some(manager) => self@.outcomes.len() < self@.retired.len() && manager
                    == self@.retired[self@.outcomes.len() as int],
                None => self@.outcomes.len() >= self@.retired.len(),
            },
    {
        if self.outcomes.len() < self.retired.len() {
            Some(self.retired[self.outcomes.len()])
        } else {
            None
        }
    }

    /// Records how the shutdown of that manager ended.
    pub fn record(&mut self, report: Result<(), String>)
        requires
            old(self)@.outcomes.len() < old(self)@.retired.len(),
        ensures
            final(self)@ == old(self)@.reported(reported_reason(report)),
    {
        let reason = match report {
            Ok(_) => None,
            Err(reason) => Some(reason),
        };
        self.outcomes.push(reason);
        assert(self@.outcomes =~= old(self)@.outcomes.push(optional_text(reason)));
    }

    fn failures(&self) -> (failures: Vec<String>)
        requires
            self@.outcomes.len() <= self@.retired.len(),
        ensures
            texts(failures@) == self@.failures(),
    {
        let mut failures: Vec<String> = Vec::new();
        if self.refresh_in_progress {
            failures.push(
                "an MCP refresh remains in progress or was interrupted before its full process lifecycle was confirmed".to_string(),
            );
        }
        if self.refresh_tainted {
            failures.push(
                "an earlier MCP refresh left an unregistered process lifecycle unconfirmed".to_string(),
            );
        }
        if let Some(reason) = &self.active_failure {
            let mut failure = "active manager: ".to_string();
            failure.append(reason.as_str());
            failures.push(failure);
        }
        let ghost leading = leading_failures(
            self.refresh_in_progress,
            self.refresh_tainted,
            self@.active_failure,
        );
        let ghost outcomes = self@.outcomes;
        assert(texts(failures@) =~= leading);
        assert(texts(failures@) =~= leading + retired_failures(outcomes.take(0)));
        let mut i: usize = 0;
        while i < self.outcomes.len()
            invariant
                i <= self.outcomes@.len(),
                outcomes == self@.outcomes,
                texts(failures@) == leading + retired_failures(outcomes.take(i as int)),
            decreases self.outcomes@.len() - i,
        {
            assert(outcomes.take(i + 1).drop_last() == outcomes.take(i as int));
            if let Some(reason) = &self.outcomes[i] {
                let ghost before = failures@;
                let mut failure = "retired manager: ".to_string();
                failure.append(reason.as_str());
                failures.push(failure);
                assert(texts(failures@) =~= texts(before).push(failure@));
                assert(texts(failures@) =~= leading + retired_failures(outcomes.take(i + 1)));
            }
            i += 1;
        }
        assert(outcomes.take(i as int) == outcomes);
        failures
    }

    fn still_unconfirmed(&self) -> (managers: Vec<McpConnectionManager>)
        requires
            self@.outcomes.len() <= self@.retired.len(),
        ensures
            managers@ == self@.still_unconfirmed(),
    {
        let mut managers: Vec<McpConnectionManager> = Vec::new();
        let ghost outcomes = self@.outcomes;
        let mut i: usize = 0;
        while i < self.outcomes.len()
            invariant
                i <= self.outcomes@.len() <= self.retired@.len(),
                outcomes == self@.outcomes,
                managers@ == failing_managers(self.retired@, outcomes.take(i as int)),
            decreases self.outcomes@.len() - i,
        {
            assert(outcomes.take(i + 1).drop_last() == outcomes.take(i as int));
            if self.outcomes[i].is_some() {
                managers.push(self.retired[i]);
            }
            i += 1;
        }
        assert(outcomes.take(i as int) == outcomes);
        managers
    }
}

impl SessionServices {
    /// A session that has replaced no manager.
    pub fn new(manager: McpConnectionManager) -> (services: Self)
        ensures
            services@ == ServicesState::fresh(manager),
    {
        SessionServices {
            mcp_connection_manager: manager,
            mcp_connection_manager_lifecycle: McpConnectionManagerLifecycle {
                retired: Vec::new(),
                refresh_in_progress: false,
                refresh_tainted: false,
            },
        }
    }

    /// Makes `manager` the active one and gives back its predecessor, which stays registered
    /// until its shutdown is confirmed.
    pub fn begin_install(&mut self, manager: McpConnectionManager) -> (previous:
        McpConnectionManager)
        ensures
            final(self)@ == old(self)@.replaced_by(manager),
            previous == old(self)@.active,
    {
        let previous = self.mcp_connection_manager;
        self.mcp_connection_manager = manager;
        self.mcp_connection_manager_lifecycle.retired.push(previous);
        previous
    }

    /// Ends an installation with the report on the predecessor's shutdown. Gives back the active
    /// manager, whose required servers are to be validated next, or the reason why the
    /// predecessor did not confirm; the predecessor then stays registered.
    pub fn install_mcp_connection_manager(
        &mut self,
        previous: McpConnectionManager,
        stopped: Result<(), String>,
    ) -> (installed: Result<McpConnectionManager, String>)
        ensures
            final(self)@ == old(self)@.predecessor_reported(previous, stopped is Ok),
            match stopped {
                Ok(_) => installed == Ok::<McpConnectionManager, String>(old(self)@.active),
                Err(reason) => installed == Err::<McpConnectionManager, String>(reason),
            },
    {
        match stopped {
            Ok(_) => {
                self.forget(previous);
                Ok(self.mcp_connection_manager)
            },
            Err(reason) => Err(reason),
        }
    }

    fn forget(&mut self, gone: McpConnectionManager)
        ensures
            final(self)@ == old(self)@.predecessor_reported(gone, true),
    {
        let ghost retired = self@.retired;
        let mut kept: Vec<McpConnectionManager> = Vec::new();
        let mut i: usize = 0;
        while i < self.mcp_connection_manager_lifecycle.retired.len()
            invariant
                i <= retired.len(),
                *self == *old(self),
                retired == self@.retired,
                kept@ == without(retired.take(i as int), gone),
            decreases retired.len() - i,
        {
            assert(retired.take(i + 1).drop_last() == retired.take(i as int));
            let manager = self.mcp_connection_manager_lifecycle.retired[i];
            if manager != gone {
                kept.push(manager);
            }
            i += 1;
        }
        assert(retired.take(i as int) == retired);
        self.mcp_connection_manager_lifecycle.retired = kept;
    }

    /// Starts a shutdown: the active manager is stopped first.
    pub fn begin_shutdown(&self) -> (shutdown: ActiveManagerShutdown)
        ensures
            shutdown@.active == self@.active,
            shutdown@.refresh_in_progress == self@.refresh_in_progress,
            shutdown@.refresh_tainted == self@.refresh_tainted,
    {
        ActiveManagerShutdown {
            active: self.mcp_connection_manager,
            refresh_in_progress: self.mcp_connection_manager_lifecycle.refresh_in_progress,
            refresh_tainted: self.mcp_connection_manager_lifecycle.refresh_tainted,
        }
    }

    /// Goes on with the report on the active manager: the retired managers are stopped next, one
    /// after the other. They stay registered until the shutdown ends, also where it is given up.
    pub fn stop_retired(&self, shutdown: ActiveManagerShutdown, report: Result<(), String>) -> (retired:
        RetiredManagersShutdown)
        ensures
            retired@ == (ManagerShutdownState {
                active: shutdown@.active,
                refresh_in_progress: shutdown@.refresh_in_progress,
                refresh_tainted: shutdown@.refresh_tainted,
                active_failure: reported_reason(report),
                retired: self@.retired,
                outcomes: Seq::empty(),
            }),
    {
        let active_failure = match report {
            Ok(_) => None,
            Err(reason) => Some(reason),
        };
        let ghost all = self@.retired;
        let mut retired: Vec<McpConnectionManager> = Vec::new();
        let mut i: usize = 0;
        while i < self.mcp_connection_manager_lifecycle.retired.len()
            invariant
                i <= all.len(),
                all == self@.retired,
                retired@ == all.take(i as int),
            decreases all.len() - i,
        {
            retired.push(self.mcp_connection_manager_lifecycle.retired[i]);
            i += 1;
            assert(retired@ =~= all.take(i as int));
        }
        assert(retired@ =~= all);
        let outcomes: Vec<Option<String>> = Vec::new();
        assert(outcomes@.map_values(|outcome: Option<String>| optional_text(outcome)) =~= Seq::<
            Option<Seq<char>>,
        >::empty());
        RetiredManagersShutdown {
            active: shutdown.active,
            refresh_in_progress: shutdown.refresh_in_progress,
            refresh_tainted: shutdown.refresh_tainted,
            active_failure,
            retired,
            outcomes,
        }
    }

    /// Whether the managers and the marks are still those that the shutdown found.
    pub fn is_shutdown_current(&self, shutdown: &RetiredManagersShutdown) -> (current: bool)
        ensures
            current == shutdown@.is_of(self@),
    {
        let lifecycle = &self.mcp_connection_manager_lifecycle;
        if shutdown.active != self.mcp_connection_manager || shutdown.refresh_in_progress
            != lifecycle.refresh_in_progress || shutdown.refresh_tainted
            != lifecycle.refresh_tainted || shutdown.retired.len() != lifecycle.retired.len() {
            return false;
        }
        let ghost found = shutdown@.retired;
        let ghost now = self@.retired;
        let mut i: usize = 0;
        while i < shutdown.retired.len()
            invariant
                i <= found.len() == now.len(),
                found == shutdown.retired@,
                found == shutdown@.retired,
                now == lifecycle.retired@,
                now == self@.retired,
                found.take(i as int) == now.take(i as int),
            decreases found.len() - i,
        {
            if shutdown.retired[i] != lifecycle.retired[i] {
                assert(found[i as int] != now[i as int]);
                return false;
            }
            assert(found.take(i + 1) =~= found.take(i as int).push(found[i as int]));
            assert(now.take(i + 1) =~= now.take(i as int).push(now[i as int]));
            i += 1;
        }
        assert(found.take(i as int) == found);
        assert(now.take(i as int) == now);
        true
    }

    /// Ends a shutdown in which every retired manager has reported. It is confirmed only where
    /// all managers are; those that are not stay registered. The lock that the caller holds since
    /// the shutdown started keeps the managers as it found them.
    pub fn shutdown_mcp_connection_managers_confirmed(
        &mut self,
        shutdown: RetiredManagersShutdown,
    ) -> (confirmed: Result<(), String>)
        requires
            shutdown@.complete(),
            shutdown@.is_of(old(self)@),
        ensures
            final(self)@ == old(self)@.shut_down(shutdown@),
            match confirmed {
                Ok(_) => shutdown@.failures().len() == 0,
                Err(message) => shutdown@.failures().len() > 0 && message@
                    == "MCP manager shutdown could not be confirmed: "@ + joined(
                    shutdown@.failures(),
                    "; "@,
                ),
            },
    {
        let failures = shutdown.failures();
        self.mcp_connection_manager_lifecycle.retired = shutdown.still_unconfirmed();
        assert(texts(failures@).len() == failures@.len());
        if failures.len() == 0 {
            Ok(())
        } else {
            let mut message = "MCP manager shutdown could not be confirmed: ".to_string();
            message.append(join(&failures, "; ").as_str());
            Err(message)
        }
    }
}

/// One installation step or one shutdown of a session's managers.
pub enum ServicesEvent {
    BeginInstall(McpConnectionManager),
    /// The replaced manager confirmed its shutdown, or did not.
    PredecessorReported(McpConnectionManager, bool),
    /// A shutdown in which the active manager and the retired ones, in order, reported.
    Shutdown(Option<Seq<char>>, Seq<Option<Seq<char>>>),
    /// A shutdown that was given up before it ended, whatever the managers had reported.
    ShutdownGivenUp,
}

impl ServicesState {
    /// The shutdown in which the managers reported this.
    pub open spec fn shutdown_with(
        self,
        active_failure: Option<Seq<char>>,
        outcomes: Seq<Option<Seq<char>>>,
    ) -> ManagerShutdownState {
        ManagerShutdownState {
            active: self.active,
            refresh_in_progress: self.refresh_in_progress,
            refresh_tainted: self.refresh_tainted,
            active_failure,
            retired: self.retired,
            outcomes,
        }
    }

    /// After the event.
    pub open spec fn after(self, event: ServicesEvent) -> ServicesState {
        match event {
            ServicesEvent::BeginInstall(manager) => self.replaced_by(manager),
            ServicesEvent::PredecessorReported(previous, stopped) => self.predecessor_reported(
                previous,
                stopped,
            ),
            ServicesEvent::Shutdown(active_failure, outcomes) => self.shut_down(
                self.shutdown_with(active_failure, outcomes),
            ),
            ServicesEvent::ShutdownGivenUp => self,
        }
    }

    /// After the events, in order.
    pub open spec fn after_all(self, events: Seq<ServicesEvent>) -> ServicesState
        decreases events.len(),
    {
        if events.len() == 0 {
            self
        } else {
            self.after(events[0]).after_all(events.skip(1))
        }
    }

    /// The event reports that the processes of the manager are gone.
    pub open spec fn reports_stopped(
        self,
        event: ServicesEvent,
        manager: McpConnectionManager,
    ) -> bool {
        match event {
            ServicesEvent::PredecessorReported(previous, stopped) => stopped && previous
                == manager,
            ServicesEvent::Shutdown(_, outcomes) => exists|i: int|
                0 <= i < self.retired.len() && (#[trigger] self.retired[i]) == manager
                    && outcomes[i] is None,
            _ => false,
        }
    }
}

proof fn failing_managers_are_kept(
    managers: Seq<McpConnectionManager>,
    outcomes: Seq<Option<Seq<char>>>,
    i: int,
)
    requires
        0 <= i < outcomes.len() <= managers.len(),
        outcomes[i] is Some,
    ensures
        failing_managers(managers, outcomes).contains(managers[i]),
    decreases outcomes.len(),
{
    let before = failing_managers(managers, outcomes.drop_last());
    let all = failing_managers(managers, outcomes);
    if i == outcomes.len() - 1 {
        assert(all.last() == managers[i]);
    } else {
        assert(outcomes.drop_last()[i] == outcomes[i]);
        failing_managers_are_kept(managers, outcomes.drop_last(), i);
        let j = choose|j: int| 0 <= j < before.len() && before[j] == managers[i];
        assert(all[j] == before[j]);
    }
}

/// A session answers for a manager until its processes are reported gone. A manager that fails to
/// confirm a shutdown, or whose shutdown is given up, is still registered afterwards, for the next
/// one to stop it again.
pub proof fn managers_are_retained_until_stopped(
    services: ServicesState,
    event: ServicesEvent,
    manager: McpConnectionManager,
)
    requires
        services.tracks(manager),
        event matches ServicesEvent::Shutdown(_, outcomes) ==> outcomes.len()
            == services.retired.len(),
    ensures
        services.after(event).tracks(manager) || services.reports_stopped(event, manager),
{
    match event {
        ServicesEvent::BeginInstall(_) => {
            pushed_contains(services.retired, services.active, manager);
        },
        ServicesEvent::PredecessorReported(previous, _) => {
            without_keeps_the_others(services.retired, previous, manager);
        },
        ServicesEvent::Shutdown(_, outcomes) => {
            if services.retired.contains(manager) {
                let i = choose|i: int|
                    0 <= i < services.retired.len() && services.retired[i] == manager;
                if outcomes[i] is Some {
                    failing_managers_are_kept(services.retired, outcomes, i);
                }
            }
        },
        ServicesEvent::ShutdownGivenUp => {},
    }
}

proof fn no_failures_means_all_confirmed(outcomes: Seq<Option<Seq<char>>>)
    requires
        retired_failures(outcomes).len() == 0,
    ensures
        forall|i: int| 0 <= i < outcomes.len() ==> (#[trigger] outcomes[i]) is None,
    decreases outcomes.len(),
{
    if outcomes.len() > 0 {
        let before = outcomes.drop_last();
        assert(outcomes.last() is None);
        no_failures_means_all_confirmed(before);
        assert forall|i: int| 0 <= i < outcomes.len() implies (#[trigger] outcomes[i]) is None by {
            if i < before.len() {
                assert(before[i] == outcomes[i]);
            }
        }
    }
}

/// A shutdown is confirmed only where no refresh is open or tainted and every manager that the
/// session answers for, the active one and the retired ones, confirmed that it stopped.
pub proof fn confirmed_shutdowns_stop_every_manager(
    services: ServicesState,
    active_failure: Option<Seq<char>>,
    outcomes: Seq<Option<Seq<char>>>,
)
    requires
        outcomes.len() == services.retired.len(),
        services.shutdown_with(active_failure, outcomes).failures().len() == 0,
    ensures
        !services.refresh_in_progress,
        !services.refresh_tainted,
        active_failure is None,
        forall|i: int| 0 <= i < outcomes.len() ==> (#[trigger] outcomes[i]) is None,
        services.shut_down(services.shutdown_with(active_failure, outcomes)).retired.len() == 0,
{
    assert(retired_failures(outcomes).len() == 0);
    assert(leading_failures(
        services.refresh_in_progress,
        services.refresh_tainted,
        active_failure,
    ).len() == 0);
    no_failures_means_all_confirmed(outcomes);
    confirmed_managers_are_forgotten(services.retired, outcomes);
}

proof fn confirmed_managers_are_forgotten(
    managers: Seq<McpConnectionManager>,
    outcomes: Seq<Option<Seq<char>>>,
)
    requires
        forall|i: int| 0 <= i < outcomes.len() ==> (#[trigger] outcomes[i]) is None,
    ensures
        failing_managers(managers, outcomes).len() == 0,
    decreases outcomes.len(),
{
    if outcomes.len() > 0 {
        let before = outcomes.drop_last();
        assert forall|i: int| 0 <= i < before.len() implies (#[trigger] before[i]) is None by {
            assert(before[i] == outcomes[i]);
        }
        confirmed_managers_are_forgotten(managers, before);
    }
}

/// A shutdown that a session may end is one of its own managers: it was started on the active and
/// the retired managers that the session has now.
pub proof fn ended_shutdowns_are_of_the_session(
    services: ServicesState,
    shutdown: ManagerShutdownState,
)
    requires
        shutdown.is_of(services),
    ensures
        shutdown == services.shutdown_with(shutdown.active_failure, shutdown.outcomes),
        forall|manager: McpConnectionManager| #[trigger]
            services.tracks(manager) <==> manager == shutdown.active || shutdown.retired.contains(
                manager,
            ),
{
}

/// Neither an installation nor a shutdown clears the marks of a refresh: while one of them
/// stands, no shutdown is confirmed.
pub proof fn refresh_marks_prevent_confirmed_shutdown(
    services: ServicesState,
    events: Seq<ServicesEvent>,
    active_failure: Option<Seq<char>>,
    outcomes: Seq<Option<Seq<char>>>,
)
    requires
        services.refresh_in_progress || services.refresh_tainted,
    ensures
        services.after_all(events).refresh_in_progress == services.refresh_in_progress,
        services.after_all(events).refresh_tainted == services.refresh_tainted,
        services.after_all(events).shutdown_with(active_failure, outcomes).failures().len() > 0,
    decreases events.len(),
{
    if events.len() > 0 {
        refresh_marks_prevent_confirmed_shutdown(
            services.after(events[0]),
            events.skip(1),
            active_failure,
            outcomes,
        );
    }
}

} // verus!
