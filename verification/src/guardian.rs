//! Keeps cleanup ownership of guardian review sessions, retired ones included.
//!
//! Each operation is one critical section. Between them the caller awaits: the admission lock,
//! which every startup holds shared and a shutdown takes exclusively, the construction of a
//! review, and the reviews' own shutdown.

use vstd::prelude::*;
use vstd::string::*;

verus! {

/// Why a guardian operation was refused or could not be confirmed.
#[derive(Clone, Debug, PartialEq, Eq)]
pub enum GuardianError {
    /// The shutdown has started.
    ShuttingDown,
    /// An earlier review or startup left something that was not cleaned up.
    PreviousUnconfirmed,
    /// A startup did not end in time, or left something that was not cleaned up.
    StartupUnconfirmed,
    /// A review did not shut down in time.
    TimedOut,
    /// The construction or the shutdown of a review failed for this reason.
    Failed(String),
}

impl GuardianError {
    /// The text of the error.
    pub open spec fn text(self) -> Seq<char> {
        match self {
            GuardianError::ShuttingDown => "guardian manager is shutting down"@,
            GuardianError::PreviousUnconfirmed =>
                "previous guardian cleanup could not be confirmed"@,
            GuardianError::StartupUnconfirmed => "guardian startup cleanup could not be confirmed"@,
            GuardianError::TimedOut => "guardian shutdown timed out"@,
            GuardianError::Failed(reason) => reason@,
        }
    }

    /// Writes the error as text.
    pub fn message(&self) -> (message: String)
        ensures
            message@ == self.text(),
    {
        match self {
            GuardianError::ShuttingDown => "guardian manager is shutting down".to_string(),
            GuardianError::PreviousUnconfirmed => {
                "previous guardian cleanup could not be confirmed".to_string()
            },
            GuardianError::StartupUnconfirmed => {
                "guardian startup cleanup could not be confirmed".to_string()
            },
            GuardianError::TimedOut => "guardian shutdown timed out".to_string(),
            GuardianError::Failed(reason) => reason.clone(),
        }
    }
}

/// A review session. Two values with the same number are the same session.
#[derive(Debug, PartialEq, Eq)]
pub struct GuardianReviewSession {
    pub id: u64,
    /// How its shutdown ended, once it has.
    pub shutdown_result: Option<Result<(), String>>,
}

/// How the shutdown of a review ended, if it has.
pub enum ReviewOutcome {
    Pending,
    Confirmed,
    Failed(Seq<char>),
}

/// The state of a review session.
pub struct ReviewState {
    pub id: u64,
    pub outcome: ReviewOutcome,
}

/// The outcome that a shutdown result stands for.
pub open spec fn outcome_of(result: Result<(), String>) -> ReviewOutcome {
    match result {
        Ok(_) => ReviewOutcome::Confirmed,
        Err(reason) => ReviewOutcome::Failed(reason@),
    }
}

impl View for GuardianReviewSession {
    type V = ReviewState;

    open spec fn view(&self) -> ReviewState {
        ReviewState {
            id: self.id,
            outcome: optional_outcome(self.shutdown_result),
        }
    }
}

/// The states of the reviews, in order.
pub open spec fn review_states(reviews: Seq<GuardianReviewSession>) -> Seq<ReviewState> {
    reviews.map_values(|review: GuardianReviewSession| review@)
}

/// The reviews whose shutdown is not confirmed, in order.
pub open spec fn unconfirmed_reviews(reviews: Seq<ReviewState>) -> Seq<ReviewState>
    decreases reviews.len(),
{
    if reviews.len() == 0 {
        Seq::empty()
    } else {
        let before = unconfirmed_reviews(reviews.drop_last());
        if reviews.last().outcome is Confirmed {
            before
        } else {
            before.push(reviews.last())
        }
    }
}

/// The review after its shutdown ended with `outcome`: the first outcome stays.
pub open spec fn with_outcome(review: ReviewState, id: u64, outcome: ReviewOutcome) -> ReviewState {
    if review.id == id && review.outcome is Pending {
        ReviewState { outcome, ..review }
    } else {
        review
    }
}

/// What is recorded of the review `id`: a failure of its shutdown where there is one, else its
/// confirmation.
pub open spec fn recorded_outcome(reviews: Seq<ReviewState>, id: u64) -> ReviewOutcome
    decreases reviews.len(),
{
    if reviews.len() == 0 {
        ReviewOutcome::Pending
    } else {
        let before = recorded_outcome(reviews.drop_last(), id);
        let last = reviews.last();
        if before is Failed || last.id != id || last.outcome is Pending {
            before
        } else {
            last.outcome
        }
    }
}

/// The outcome that an optional shutdown result stands for.
pub open spec fn optional_outcome(result: Option<Result<(), String>>) -> ReviewOutcome {
    match result {
        None => ReviewOutcome::Pending,
        Some(result) => outcome_of(result),
    }
}

/// Knows every review that may still need cleanup.
pub struct GuardianSessionLifecycle {
    pub closed: bool,
    /// Set once a startup failed or was interrupted, and never cleared.
    pub unconfirmed_startup: bool,
    pub reviews: Vec<GuardianReviewSession>,
}

/// The state of a lifecycle.
#[verifier::ext_equal]
pub struct GuardianState {
    pub closed: bool,
    pub unconfirmed_startup: bool,
    pub reviews: Seq<ReviewState>,
}

impl View for GuardianSessionLifecycle {
    type V = GuardianState;

    open spec fn view(&self) -> GuardianState {
        GuardianState {
            closed: self.closed,
            unconfirmed_startup: self.unconfirmed_startup,
            reviews: review_states(self.reviews@),
        }
    }
}

/// The session numbers of the reviews, in order.
pub open spec fn review_ids(reviews: Seq<ReviewState>) -> Seq<u64> {
    reviews.map_values(|review: ReviewState| review.id)
}

/// The numbers of the reviews that are not among `initial`, in order.
pub open spec fn ids_beyond(reviews: Seq<ReviewState>, initial: Seq<u64>) -> Seq<u64>
    decreases reviews.len(),
{
    if reviews.len() == 0 {
        Seq::empty()
    } else {
        let before = ids_beyond(reviews.drop_last(), initial);
        if initial.contains(reviews.last().id) {
            before
        } else {
            before.push(reviews.last().id)
        }
    }
}

impl GuardianState {
    /// A lifecycle without reviews.
    pub open spec fn fresh() -> GuardianState {
        GuardianState { closed: false, unconfirmed_startup: false, reviews: Seq::empty() }
    }

    /// Some review's shutdown failed.
    pub open spec fn has_failed_review(self) -> bool {
        exists|i: int| 0 <= i < self.reviews.len() && (#[trigger] self.reviews[i]).outcome is Failed
    }

    /// A startup may begin.
    pub open spec fn admits(self) -> bool {
        !self.closed && !self.unconfirmed_startup && !self.has_failed_review()
    }

    /// After a startup ended without a review.
    pub open spec fn startup_lost(self) -> GuardianState {
        GuardianState { unconfirmed_startup: true, ..self }
    }

    /// After a review was registered. Reviews with a confirmed shutdown are forgotten.
    pub open spec fn registered(self, review: ReviewState) -> GuardianState {
        GuardianState { reviews: unconfirmed_reviews(self.reviews).push(review), ..self }
    }

    /// After the shutdown of the review `id` ended.
    pub open spec fn recorded(self, id: u64, outcome: ReviewOutcome) -> GuardianState {
        GuardianState {
            reviews: self.reviews.map_values(
                |review: ReviewState| with_outcome(review, id, outcome),
            ),
            ..self
        }
    }

    /// The outcome of a shutdown: an unconfirmed startup counts first, then the reviews that were
    /// there when it started, then the later ones.
    pub open spec fn verdict(
        self,
        admission_closed: bool,
        initial: Result<(), GuardianError>,
        additional: Result<(), GuardianError>,
    ) -> Result<(), GuardianError> {
        if !admission_closed || self.unconfirmed_startup {
            Err(GuardianError::StartupUnconfirmed)
        } else if initial is Err {
            initial
        } else {
            additional
        }
    }

    /// After a shutdown started.
    pub open spec fn closing(self) -> GuardianState {
        GuardianState { closed: true, ..self }
    }
}

/// A startup that was admitted and has not ended.
///
/// It ends in [`GuardianSessionLifecycle::spawn`]; one that ends otherwise is handed to
/// [`Self::interrupted`]. The caller holds the admission lock shared for as long.
pub struct StartupGuard {
    open: (),
}

impl StartupGuard {
    /// Ends a startup that did not construct its review.
    pub fn interrupted(self, lifecycle: &mut GuardianSessionLifecycle)
        ensures
            final(lifecycle)@ == old(lifecycle)@.startup_lost(),
    {
        lifecycle.unconfirmed_startup = true;
    }
}

/// How the shutdown of one review ended before the deadline.
#[derive(Debug, PartialEq, Eq)]
pub enum ReviewShutdown {
    Finished(Result<(), String>),
    TimedOut,
}

impl ReviewShutdown {
    /// The failure that the shutdown ended with; none where it was confirmed.
    pub open spec fn failure(self) -> Option<Seq<char>> {
        match self {
            ReviewShutdown::Finished(Ok(_)) => None,
            ReviewShutdown::Finished(Err(reason)) => Some(reason@),
            ReviewShutdown::TimedOut => Some("guardian shutdown timed out"@),
        }
    }
}

proof fn forgetting_a_confirmed_review(reviews: Seq<ReviewState>, i: int)
    requires
        0 <= i < reviews.len(),
        reviews[i].outcome is Confirmed,
    ensures
        unconfirmed_reviews(reviews.remove(i)) == unconfirmed_reviews(reviews),
    decreases reviews.len(),
{
    let rest = reviews.remove(i);
    if i == reviews.len() - 1 {
        assert(rest =~= reviews.drop_last());
    } else {
        forgetting_a_confirmed_review(reviews.drop_last(), i);
        assert(rest.drop_last() =~= reviews.drop_last().remove(i));
        assert(rest.last() == reviews.last());
    }
}

proof fn all_unconfirmed_are_kept(reviews: Seq<ReviewState>)
    requires
        forall|i: int| 0 <= i < reviews.len() ==> !((#[trigger] reviews[i]).outcome is Confirmed),
    ensures
        unconfirmed_reviews(reviews) == reviews,
    decreases reviews.len(),
{
    if reviews.len() > 0 {
        let before = reviews.drop_last();
        assert forall|i: int| 0 <= i < before.len() implies !(
        (#[trigger] before[i]).outcome is Confirmed) by {
            assert(before[i] == reviews[i]);
        }
        all_unconfirmed_are_kept(before);
        assert(before.push(reviews.last()) =~= reviews);
    }
}

proof fn first_failure_is_recorded(reviews: Seq<ReviewState>, id: u64, count: int)
    requires
        0 <= count <= reviews.len(),
        recorded_outcome(reviews.take(count), id) is Failed,
    ensures
        recorded_outcome(reviews, id) == recorded_outcome(reviews.take(count), id),
    decreases reviews.len() - count,
{
    if count < reviews.len() {
        assert(reviews.take(count + 1).drop_last() == reviews.take(count));
        first_failure_is_recorded(reviews, id, count + 1);
    } else {
        assert(reviews.take(count) == reviews);
    }
}

impl GuardianSessionLifecycle {
    /// A lifecycle without reviews.
    pub fn new() -> (lifecycle: Self)
        ensures
            lifecycle@ == GuardianState::fresh(),
    {
        let lifecycle = GuardianSessionLifecycle {
            closed: false,
            unconfirmed_startup: false,
            reviews: Vec::new(),
        };
        assert(lifecycle@ =~= GuardianState::fresh());
        lifecycle
    }

    /// Refuses a startup once the shutdown has started.
    pub fn ensure_open(&self) -> (open: Result<(), GuardianError>)
        ensures
            match open {
                Ok(_) => !self@.closed,
                Err(error) => self@.closed && error == GuardianError::ShuttingDown,
            },
    {
        if self.closed {
            Err(GuardianError::ShuttingDown)
        } else {
            Ok(())
        }
    }

    /// Admits a startup that holds the admission lock, unless the shutdown has started or
    /// earlier cleanup could not be confirmed.
    pub fn begin_startup(&self) -> (admitted: Result<StartupGuard, GuardianError>)
        ensures
            match admitted {
                Ok(_) => self@.admits(),
                Err(error) => !self@.admits() && error == if self@.closed {
                    GuardianError::ShuttingDown
                } else {
                    GuardianError::PreviousUnconfirmed
                },
            },
    {
        if self.closed {
            return Err(GuardianError::ShuttingDown);
        }
        if self.unconfirmed_startup {
            return Err(GuardianError::PreviousUnconfirmed);
        }
        let mut i: usize = 0;
        while i < self.reviews.len()
            invariant
                i <= self.reviews@.len(),
                !self.closed,
                !self.unconfirmed_startup,
                forall|j: int|
                    0 <= j < i ==> !((#[trigger] self@.reviews[j]).outcome is Failed),
            decreases self.reviews@.len() - i,
        {
            if let Some(Err(_)) = &self.reviews[i].shutdown_result {
                assert(self@.reviews[i as int].outcome is Failed);
                return Err(GuardianError::PreviousUnconfirmed);
            }
            i += 1;
        }
        Ok(StartupGuard { open: () })
    }

    /// Ends an admitted startup: its review is registered, or, where the construction failed, the
    /// lifecycle stays unconfirmed for good.
    pub fn spawn(
        &mut self,
        guard: StartupGuard,
        constructed: Result<GuardianReviewSession, String>,
    ) -> (review: Result<u64, GuardianError>)
        ensures
            match constructed {
                Ok(session) => final(self)@ == old(self)@.registered(session@) && review == Ok::<
                    u64,
                    GuardianError,
                >(session.id),
                Err(reason) => final(self)@ == old(self)@.startup_lost() && review == Err::<
                    u64,
                    GuardianError,
                >(GuardianError::Failed(reason)),
            },
    {
        match constructed {
            Ok(session) => Ok(self.register(session)),
            Err(reason) => {
                guard.interrupted(self);
                Err(GuardianError::Failed(reason))
            },
        }
    }

    /// Registers a review for cleanup and forgets those whose shutdown is confirmed.
    pub fn register(&mut self, review: GuardianReviewSession) -> (id: u64)
        ensures
            final(self)@ == old(self)@.registered(review@),
            id == review.id,
    {
        let mut i: usize = 0;
        while i < self.reviews.len()
            invariant
                i <= self.reviews@.len(),
                self.closed == old(self).closed,
                self.unconfirmed_startup == old(self).unconfirmed_startup,
                forall|j: int|
                    0 <= j < i ==> !((#[trigger] self@.reviews[j]).outcome is Confirmed),
                unconfirmed_reviews(self@.reviews) == unconfirmed_reviews(old(self)@.reviews),
            decreases self.reviews@.len() - i,
        {
            let ghost before = self@.reviews;
            let confirmed = match &self.reviews[i].shutdown_result {
                Some(Ok(_)) => true,
                _ => false,
            };
            if confirmed {
                self.reviews.remove(i);
                proof {
                    forgetting_a_confirmed_review(before, i as int);
                    assert(self@.reviews =~= before.remove(i as int));
                    assert forall|j: int| 0 <= j < i implies !(
                    (#[trigger] self@.reviews[j]).outcome is Confirmed) by {
                        assert(self@.reviews[j] == before[j]);
                    }
                }
            } else {
                i += 1;
            }
        }
        let ghost kept = self@.reviews;
        proof {
            all_unconfirmed_are_kept(kept);
        }
        let id = review.id;
        self.reviews.push(review);
        assert(self@.reviews =~= kept.push(review@));
        id
    }

    /// Records how the shutdown of a review ended. The first record stays.
    pub fn record_shutdown(&mut self, id: u64, result: Result<(), String>)
        ensures
            final(self)@ == old(self)@.recorded(id, outcome_of(result)),
    {
        let ghost before = self@.reviews;
        let ghost outcome = outcome_of(result);
        let mut i: usize = 0;
        while i < self.reviews.len()
            invariant
                i <= self.reviews@.len() == before.len(),
                self.closed == old(self).closed,
                self.unconfirmed_startup == old(self).unconfirmed_startup,
                outcome == outcome_of(result),
                self@.reviews.len() == before.len(),
                forall|j: int|
                    0 <= j < before.len() ==> (#[trigger] self@.reviews[j]) == if j < i {
                        with_outcome(before[j], id, outcome)
                    } else {
                        before[j]
                    },
            decreases self.reviews@.len() - i,
        {
            let ghost previous = self@.reviews;
            assert(previous[i as int] == before[i as int]);
            if self.reviews[i].id == id && self.reviews[i].shutdown_result.is_none() {
                let copied = match &result {
                    Ok(_) => Ok(()),
                    Err(reason) => Err(reason.clone()),
                };
                self.reviews.set(
                    i,
                    GuardianReviewSession { id, shutdown_result: Some(copied) },
                );
                assert(self@.reviews =~= previous.update(
                    i as int,
                    with_outcome(before[i as int], id, outcome),
                ));
            }
            i += 1;
        }
        assert(self@ =~= old(self)@.recorded(id, outcome));
    }

    /// How the shutdown of a review ended, once it has. A review with such a record is not stopped
    /// again: the record is its result.
    pub fn recorded(&self, id: u64) -> (result: Option<Result<(), String>>)
        ensures
            optional_outcome(result) == recorded_outcome(self@.reviews, id),
    {
        let mut confirmed: bool = false;
        let mut i: usize = 0;
        while i < self.reviews.len()
            invariant
                i <= self.reviews@.len(),
                recorded_outcome(self@.reviews.take(i as int), id) == if confirmed {
                    ReviewOutcome::Confirmed
                } else {
                    ReviewOutcome::Pending
                },
            decreases self.reviews@.len() - i,
        {
            assert(self@.reviews.take(i + 1).drop_last() == self@.reviews.take(i as int));
            if self.reviews[i].id == id {
                match &self.reviews[i].shutdown_result {
                    Some(Err(reason)) => {
                        proof {
                            first_failure_is_recorded(self@.reviews, id, i + 1);
                        }
                        return Some(Err(reason.clone()));
                    },
                    Some(Ok(_)) => {
                        confirmed = true;
                    },
                    None => {},
                }
            }
            i += 1;
        }
        assert(self@.reviews.take(i as int) == self@.reviews);
        if confirmed {
            Some(Ok(()))
        } else {
            None
        }
    }

    /// Starts a shutdown: no startup is admitted from here on. Gives back the reviews to stop
    /// while the startups under way are awaited.
    pub fn begin_shutdown(&mut self) -> (initial: Vec<u64>)
        ensures
            final(self)@ == old(self)@.closing(),
            initial@ == review_ids(old(self)@.reviews),
    {
        self.closed = true;
        let mut initial: Vec<u64> = Vec::new();
        let mut i: usize = 0;
        while i < self.reviews.len()
            invariant
                i <= self.reviews@.len(),
                self@ == old(self)@.closing(),
                initial@ == review_ids(self@.reviews).take(i as int),
            decreases self.reviews@.len() - i,
        {
            initial.push(self.reviews[i].id);
            i += 1;
            assert(initial@ =~= review_ids(self@.reviews).take(i as int));
        }
        assert(initial@ =~= review_ids(old(self)@.reviews));
        initial
    }

    /// The reviews that were registered since the shutdown started, which it stops last.
    pub fn additional(&self, initial: &Vec<u64>) -> (additional: Vec<u64>)
        ensures
            additional@ == ids_beyond(self@.reviews, initial@),
    {
        let mut additional: Vec<u64> = Vec::new();
        let mut i: usize = 0;
        while i < self.reviews.len()
            invariant
                i <= self.reviews@.len(),
                additional@ == ids_beyond(self@.reviews.take(i as int), initial@),
            decreases self.reviews@.len() - i,
        {
            assert(self@.reviews.take(i + 1).drop_last() == self@.reviews.take(i as int));
            let id = self.reviews[i].id;
            if !contains_id(initial, id) {
                additional.push(id);
            }
            i += 1;
        }
        assert(self@.reviews.take(i as int) == self@.reviews);
        additional
    }

    /// Ends a shutdown: `admission_closed` says that all startups ended before the deadline, and
    /// the results are those of [`shutdown_reviews`] on the initial and the additional reviews.
    pub fn shutdown(
        &self,
        admission_closed: bool,
        initial_result: Result<(), GuardianError>,
        additional_result: Result<(), GuardianError>,
    ) -> (confirmed: Result<(), GuardianError>)
        ensures
            confirmed == self@.verdict(admission_closed, initial_result, additional_result),
    {
        if !admission_closed || self.unconfirmed_startup {
            return Err(GuardianError::StartupUnconfirmed);
        }
        match initial_result {
            Ok(_) => additional_result,
            Err(error) => Err(error),
        }
    }
}

fn contains_id(ids: &Vec<u64>, id: u64) -> (found: bool)
    ensures
        found == ids@.contains(id),
{
    let mut i: usize = 0;
    while i < ids.len()
        invariant
            i <= ids@.len(),
            forall|j: int| 0 <= j < i ==> ids@[j] != id,
        decreases ids@.len() - i,
    {
        if ids[i] == id {
            assert(ids@[i as int] == id);
            return true;
        }
        i += 1;
    }
    false
}

/// The outcome of stopping several reviews: the first failure, in their order.
pub fn shutdown_reviews(outcomes: &Vec<ReviewShutdown>) -> (confirmed: Result<(), GuardianError>)
    ensures
        match confirmed {
            Ok(_) => all_confirmed(outcomes@),
            Err(error) => exists|i: int| #[trigger]
                is_first_failure(outcomes@, i) && outcomes@[i].failure() == Some(error.text()),
        },
{
    let mut i: usize = 0;
    while i < outcomes.len()
        invariant
            i <= outcomes@.len(),
            forall|j: int| 0 <= j < i ==> (#[trigger] outcomes@[j]).failure() is None,
        decreases outcomes@.len() - i,
    {
        match &outcomes[i] {
            ReviewShutdown::Finished(Ok(_)) => {},
            ReviewShutdown::Finished(Err(reason)) => {
                assert(is_first_failure(outcomes@, i as int));
                return Err(GuardianError::Failed(reason.clone()));
            },
            ReviewShutdown::TimedOut => {
                assert(is_first_failure(outcomes@, i as int));
                return Err(GuardianError::TimedOut);
            },
        }
        i += 1;
    }
    Ok(())
}

/// Every review confirmed its shutdown.
pub open spec fn all_confirmed(outcomes: Seq<ReviewShutdown>) -> bool {
    forall|i: int| 0 <= i < outcomes.len() ==> (#[trigger] outcomes[i]).failure() is None
}

/// The review at `i` failed, and none before it.
pub open spec fn is_first_failure(outcomes: Seq<ReviewShutdown>, i: int) -> bool {
    &&& 0 <= i < outcomes.len()
    &&& outcomes[i].failure() is Some
    &&& forall|j: int| 0 <= j < i ==> (#[trigger] outcomes[j]).failure() is None
}

/// A lifecycle together with the number of startups that were admitted and have not ended.
pub struct GuardianHistory {
    pub state: GuardianState,
    pub starting: nat,
}

/// One operation on a lifecycle.
pub enum GuardianEvent {
    BeginStartup,
    /// A startup constructed this review.
    Constructed(ReviewState),
    /// A startup failed or was interrupted.
    StartupLost,
    /// A review was registered without a startup.
    Register(ReviewState),
    /// The shutdown of the review with this number ended.
    Record(u64, ReviewOutcome),
    BeginShutdown,
}

impl GuardianHistory {
    /// The startup that the event ends is there.
    pub open spec fn allows(self, event: GuardianEvent) -> bool {
        match event {
            GuardianEvent::Constructed(_) | GuardianEvent::StartupLost => self.starting > 0,
            _ => true,
        }
    }

    /// After the event.
    pub open spec fn after(self, event: GuardianEvent) -> GuardianHistory {
        match event {
            GuardianEvent::BeginStartup => GuardianHistory {
                starting: if self.state.admits() {
                    self.starting + 1
                } else {
                    self.starting
                },
                ..self
            },
            GuardianEvent::Constructed(review) => GuardianHistory {
                state: self.state.registered(review),
                starting: (self.starting - 1) as nat,
            },
            GuardianEvent::StartupLost => GuardianHistory {
                state: self.state.startup_lost(),
                starting: (self.starting - 1) as nat,
            },
            GuardianEvent::Register(review) => GuardianHistory {
                state: self.state.registered(review),
                ..self
            },
            GuardianEvent::Record(id, outcome) => GuardianHistory {
                state: self.state.recorded(id, outcome),
                ..self
            },
            GuardianEvent::BeginShutdown => GuardianHistory { state: self.state.closing(), ..self },
        }
    }

    /// Each event finds the startup that it ends.
    pub open spec fn allows_all(self, events: Seq<GuardianEvent>) -> bool
        decreases events.len(),
    {
        events.len() == 0 || (self.allows(events[0]) && self.after(events[0]).allows_all(
            events.skip(1),
        ))
    }

    /// After the events, in order.
    pub open spec fn after_all(self, events: Seq<GuardianEvent>) -> GuardianHistory
        decreases events.len(),
    {
        if events.len() == 0 {
            self
        } else {
            self.after(events[0]).after_all(events.skip(1))
        }
    }
}

proof fn unconfirmed_reviews_are_kept(reviews: Seq<ReviewState>, review: ReviewState)
    requires
        reviews.contains(review),
        !(review.outcome is Confirmed),
    ensures
        unconfirmed_reviews(reviews).contains(review),
    decreases reviews.len(),
{
    let before = reviews.drop_last();
    let kept = unconfirmed_reviews(before);
    if reviews.last() == review {
        assert(kept.push(review).last() == review);
    } else {
        let i = choose|i: int| 0 <= i < reviews.len() && reviews[i] == review;
        assert(before[i] == review);
        unconfirmed_reviews_are_kept(before, review);
        let j = choose|j: int| 0 <= j < kept.len() && kept[j] == review;
        assert(kept.push(reviews.last())[j] == review);
    }
}

/// A lifecycle keeps a review until its shutdown is confirmed: every operation leaves it
/// registered, at most with an outcome recorded.
pub proof fn reviews_are_kept_until_confirmed(
    history: GuardianHistory,
    event: GuardianEvent,
    review: ReviewState,
)
    requires
        history.state.reviews.contains(review),
        !(review.outcome is Confirmed),
    ensures
        match event {
            GuardianEvent::Record(id, outcome) => history.after(event).state.reviews.contains(
                with_outcome(review, id, outcome),
            ),
            _ => history.after(event).state.reviews.contains(review),
        },
{
    let reviews = history.state.reviews;
    let later = history.after(event).state.reviews;
    match event {
        GuardianEvent::Constructed(added) | GuardianEvent::Register(added) => {
            unconfirmed_reviews_are_kept(reviews, review);
            let kept = unconfirmed_reviews(reviews);
            let i = choose|i: int| 0 <= i < kept.len() && kept[i] == review;
            assert(later[i] == review);
        },
        GuardianEvent::Record(id, outcome) => {
            let i = choose|i: int| 0 <= i < reviews.len() && reviews[i] == review;
            assert(later[i] == with_outcome(review, id, outcome));
        },
        _ => {},
    }
}

/// A review whose shutdown failed stays registered as failed for good, and from then on no
/// startup is admitted.
pub proof fn failed_reviews_are_never_forgotten(
    history: GuardianHistory,
    events: Seq<GuardianEvent>,
    review: ReviewState,
)
    requires
        history.state.reviews.contains(review),
        review.outcome is Failed,
    ensures
        history.after_all(events).state.reviews.contains(review),
        !history.after_all(events).state.admits(),
    decreases events.len(),
{
    if events.len() > 0 {
        reviews_are_kept_until_confirmed(history, events[0], review);
        failed_reviews_are_never_forgotten(history.after(events[0]), events.skip(1), review);
    } else {
        let i = choose|i: int|
            0 <= i < history.state.reviews.len() && history.state.reviews[i] == review;
        assert(history.state.reviews[i].outcome is Failed);
    }
}

proof fn failed_reviews_are_recorded(reviews: Seq<ReviewState>, i: int)
    requires
        0 <= i < reviews.len(),
        reviews[i].outcome is Failed,
    ensures
        recorded_outcome(reviews, reviews[i].id) is Failed,
    decreases reviews.len(),
{
    if i < reviews.len() - 1 {
        failed_reviews_are_recorded(reviews.drop_last(), i);
    }
}

/// A shutdown passes on what is recorded: a review with a recorded failure fails in it, or times
/// out.
pub open spec fn passes_on_records(
    reviews: Seq<ReviewState>,
    ids: Seq<u64>,
    outcomes: Seq<ReviewShutdown>,
) -> bool {
    &&& outcomes.len() == ids.len()
    &&& forall|i: int|
        0 <= i < ids.len() && recorded_outcome(reviews, #[trigger] ids[i]) is Failed
            ==> outcomes[i].failure() is Some
}

/// A recorded failure keeps every later shutdown unconfirmed, whatever happens in between and
/// however the other reviews end: each shutdown reaches the review, and passes its record on.
pub proof fn recorded_failures_prevent_confirmed_shutdown(
    history: GuardianHistory,
    events: Seq<GuardianEvent>,
    review: ReviewState,
    admission_closed: bool,
    initial_outcomes: Seq<ReviewShutdown>,
    initial_result: Result<(), GuardianError>,
    additional_result: Result<(), GuardianError>,
)
    requires
        history.state.reviews.contains(review),
        review.outcome is Failed,
        passes_on_records(
            history.after_all(events).state.reviews,
            review_ids(history.after_all(events).state.reviews),
            initial_outcomes,
        ),
        initial_result is Ok ==> all_confirmed(initial_outcomes),
    ensures
        history.after_all(events).state.verdict(
            admission_closed,
            initial_result,
            additional_result,
        ) is Err,
{
    failed_reviews_are_never_forgotten(history, events, review);
    let reviews = history.after_all(events).state.reviews;
    let ids = review_ids(reviews);
    let i = choose|i: int| 0 <= i < reviews.len() && reviews[i] == review;
    failed_reviews_are_recorded(reviews, i);
    assert(ids[i] == review.id);
    assert(initial_outcomes[i].failure() is Some);
}

/// Once a shutdown has started, no startup is admitted any more.
pub proof fn shutdown_closes_admission_for_good(
    history: GuardianHistory,
    events: Seq<GuardianEvent>,
)
    requires
        history.state.closed,
    ensures
        history.after_all(events).state.closed,
        !history.after_all(events).state.admits(),
    decreases events.len(),
{
    if events.len() > 0 {
        shutdown_closes_admission_for_good(history.after(events[0]), events.skip(1));
    }
}

/// Once a startup failed or was interrupted, no startup is admitted and every shutdown is
/// unconfirmed, however often it is tried and whatever the reviews report.
pub proof fn lost_startups_prevent_confirmed_shutdown(
    history: GuardianHistory,
    events: Seq<GuardianEvent>,
    admission_closed: bool,
    initial: Result<(), GuardianError>,
    additional: Result<(), GuardianError>,
)
    requires
        history.state.unconfirmed_startup,
    ensures
        history.after_all(events).state.unconfirmed_startup,
        !history.after_all(events).state.admits(),
        history.after_all(events).state.verdict(admission_closed, initial, additional) == Err::<
            (),
            GuardianError,
        >(GuardianError::StartupUnconfirmed),
    decreases events.len(),
{
    if events.len() > 0 {
        lost_startups_prevent_confirmed_shutdown(
            history.after(events[0]),
            events.skip(1),
            admission_closed,
            initial,
            additional,
        );
    }
}

/// Once a shutdown has started and the startups under way have ended, no startup adds a review
/// any more: the reviews to stop are final.
pub proof fn ended_startups_fence_registration(
    history: GuardianHistory,
    events: Seq<GuardianEvent>,
)
    requires
        history.state.closed,
        history.starting == 0,
        history.allows_all(events),
        forall|i: int| 0 <= i < events.len() ==> !((#[trigger] events[i]) is Register),
    ensures
        history.after_all(events).starting == 0,
        review_ids(history.after_all(events).state.reviews) == review_ids(history.state.reviews),
    decreases events.len(),
{
    if events.len() > 0 {
        let next = history.after(events[0]);
        let rest = events.skip(1);
        assert(!(events[0] is Register));
        assert forall|i: int| 0 <= i < rest.len() implies !((#[trigger] rest[i]) is Register) by {
            assert(rest[i] == events[i + 1]);
        }
        assert(review_ids(next.state.reviews) =~= review_ids(history.state.reviews));
        ended_startups_fence_registration(next, rest);
    }
}

/// The review with this number is among those stopped, and confirmed its shutdown.
pub open spec fn confirms(ids: Seq<u64>, outcomes: Seq<ReviewShutdown>, id: u64) -> bool {
    exists|i: int|
        0 <= i < ids.len() && i < outcomes.len() && (#[trigger] ids[i]) == id
            && outcomes[i].failure() is None
}

proof fn ids_beyond_holds_the_others(reviews: Seq<ReviewState>, initial: Seq<u64>, i: int)
    requires
        0 <= i < reviews.len(),
        !initial.contains(reviews[i].id),
    ensures
        ids_beyond(reviews, initial).contains(reviews[i].id),
    decreases reviews.len(),
{
    let before = ids_beyond(reviews.drop_last(), initial);
    let all = ids_beyond(reviews, initial);
    if i == reviews.len() - 1 {
        assert(all.last() == reviews[i].id);
    } else {
        assert(reviews.drop_last()[i] == reviews[i]);
        ids_beyond_holds_the_others(reviews.drop_last(), initial, i);
        let j = choose|j: int| 0 <= j < before.len() && before[j] == reviews[i].id;
        assert(all[j] == before[j]);
    }
}

/// A shutdown is confirmed only where every registered review, whether it was there when the
/// shutdown started or came later, was stopped and confirmed that.
pub proof fn confirmed_shutdowns_confirm_every_review(
    state: GuardianState,
    admission_closed: bool,
    initial: Seq<u64>,
    initial_outcomes: Seq<ReviewShutdown>,
    initial_result: Result<(), GuardianError>,
    additional_outcomes: Seq<ReviewShutdown>,
    additional_result: Result<(), GuardianError>,
    review: ReviewState,
)
    requires
        initial_outcomes.len() == initial.len(),
        initial_result is Ok ==> all_confirmed(initial_outcomes),
        additional_outcomes.len() == ids_beyond(state.reviews, initial).len(),
        additional_result is Ok ==> all_confirmed(additional_outcomes),
        state.verdict(admission_closed, initial_result, additional_result) is Ok,
        state.reviews.contains(review),
    ensures
        admission_closed,
        !state.unconfirmed_startup,
        confirms(initial, initial_outcomes, review.id) || confirms(
            ids_beyond(state.reviews, initial),
            additional_outcomes,
            review.id,
        ),
{
    if initial.contains(review.id) {
        let i = choose|i: int| 0 <= i < initial.len() && initial[i] == review.id;
        assert(initial_outcomes[i].failure() is None);
    } else {
        let additional = ids_beyond(state.reviews, initial);
        let i = choose|i: int| 0 <= i < state.reviews.len() && state.reviews[i] == review;
        ids_beyond_holds_the_others(state.reviews, initial, i);
        let j = choose|j: int| 0 <= j < additional.len() && additional[j] == review.id;
        assert(additional_outcomes[j].failure() is None);
    }
}

} // verus!
