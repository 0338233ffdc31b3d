//! Startup, records and shutdown of guardian reviews.

use crate::guardian::{
    all_confirmed, ids_beyond, is_first_failure, optional_outcome, outcome_of, recorded_outcome,
    review_ids, unconfirmed_reviews, GuardianError, GuardianReviewSession,
    GuardianSessionLifecycle, GuardianState, ReviewOutcome, ReviewShutdown, ReviewState,
};
use vstd::prelude::*;

verus! {

/// A review shows its number and how its shutdown ended: pending without a result, confirmed with a
/// good one, failed for its reason with a bad one. A lifecycle shows its marks and its reviews in
/// order.
pub proof fn reviews_show_their_fields(
    review: GuardianReviewSession,
    lifecycle: GuardianSessionLifecycle,
)
    ensures
        review@.id == review.id,
        review.shutdown_result is None <==> review@.outcome is Pending,
        review.shutdown_result matches Some(Ok(_)) <==> review@.outcome is Confirmed,
        review.shutdown_result matches Some(Err(reason)) ==> review@.outcome
            == ReviewOutcome::Failed(reason@),
        lifecycle@.closed == lifecycle.closed,
        lifecycle@.unconfirmed_startup == lifecycle.unconfirmed_startup,
        lifecycle@.reviews.len() == lifecycle.reviews@.len(),
        forall|i: int|
            0 <= i < lifecycle.reviews@.len() ==> #[trigger] lifecycle@.reviews[i]
                == lifecycle.reviews@[i]@,
{
}

/// A result stands for the outcome of its kind, with its reason.
pub proof fn results_stand_for_outcomes(reason: String)
    ensures
        outcome_of(Ok(())) == ReviewOutcome::Confirmed,
        outcome_of(Err(reason)) == ReviewOutcome::Failed(reason@),
        optional_outcome(None) == ReviewOutcome::Pending,
        optional_outcome(Some(Ok(()))) == ReviewOutcome::Confirmed,
        optional_outcome(Some(Err(reason))) == ReviewOutcome::Failed(reason@),
{
}

/// A startup is admitted exactly where the lifecycle is open, no startup was lost and no registered
/// review has failed to shut down. Reviews that are running or confirmed do not refuse it.
pub proof fn only_failures_and_the_shutdown_refuse_startups(state: GuardianState)
    ensures
        state.admits() <==> {
            &&& !state.closed
            &&& !state.unconfirmed_startup
            &&& forall|i: int|
                0 <= i < state.reviews.len() ==> !((#[trigger] state.reviews[i]).outcome is Failed)
        },
{
}

/// Registering a review that has not failed, or whose shutdown is still pending, never closes
/// admission: further startups are admitted beside running reviews.
pub proof fn running_reviews_do_not_refuse_startups(state: GuardianState, review: ReviewState)
    requires
        state.admits(),
        !(review.outcome is Failed),
    ensures
        state.registered(review).admits(),
{
    let next = state.registered(review);
    assert forall|i: int| 0 <= i < next.reviews.len() implies !(
    (#[trigger] next.reviews[i]).outcome is Failed) by {
        if i < next.reviews.len() - 1 {
            kept_reviews_were_there(state.reviews, i);
        }
    }
}

proof fn kept_reviews_were_there(reviews: Seq<ReviewState>, i: int)
    requires
        0 <= i < unconfirmed_reviews(reviews).len(),
    ensures
        reviews.contains(unconfirmed_reviews(reviews)[i]),
        !(unconfirmed_reviews(reviews)[i].outcome is Confirmed),
    decreases reviews.len(),
{
    if reviews.len() > 0 {
        let before = reviews.drop_last();
        let kept = unconfirmed_reviews(before);
        if i < kept.len() {
            kept_reviews_were_there(before, i);
            let j = choose|j: int| 0 <= j < before.len() && before[j] == kept[i];
            assert(reviews[j] == kept[i]);
        } else {
            assert(reviews[reviews.len() - 1] == unconfirmed_reviews(reviews)[i]);
        }
    }
}

/// A new lifecycle is open and knows no review. A lost startup, and the start of a shutdown, leave
/// one mark each and nothing else.
pub proof fn marks_change_nothing_else(state: GuardianState)
    ensures
        !GuardianState::fresh().closed,
        !GuardianState::fresh().unconfirmed_startup,
        GuardianState::fresh().reviews.len() == 0,
        state.startup_lost().closed == state.closed,
        state.startup_lost().unconfirmed_startup,
        state.startup_lost().reviews == state.reviews,
        state.closing().closed,
        state.closing().unconfirmed_startup == state.unconfirmed_startup,
        state.closing().reviews == state.reviews,
{
}

/// A registered review is the last one, behind the earlier ones that are not confirmed, which keep
/// their order; the confirmed ones are gone. The marks stay.
pub proof fn registration_forgets_only_the_confirmed(
    state: GuardianState,
    review: ReviewState,
    other: ReviewState,
)
    ensures
        state.registered(review).closed == state.closed,
        state.registered(review).unconfirmed_startup == state.unconfirmed_startup,
        state.registered(review).reviews.len() > 0,
        state.registered(review).reviews.last() == review,
        state.registered(review).reviews.drop_last() == unconfirmed_reviews(state.reviews),
        unconfirmed_reviews(Seq::empty()) == Seq::<ReviewState>::empty(),
        other.outcome is Confirmed ==> unconfirmed_reviews(state.reviews.push(other))
            == unconfirmed_reviews(state.reviews),
        !(other.outcome is Confirmed) ==> unconfirmed_reviews(state.reviews.push(other))
            == unconfirmed_reviews(state.reviews).push(other),
{
    assert(state.reviews.push(other).drop_last() =~= state.reviews);
    assert(state.registered(review).reviews.drop_last() =~= unconfirmed_reviews(state.reviews));
}

/// A record reaches the pending reviews of its number and changes nothing else: every review keeps
/// its place and its number, and one that has an outcome keeps it.
pub proof fn records_reach_pending_reviews_of_their_number(
    state: GuardianState,
    id: u64,
    outcome: ReviewOutcome,
)
    ensures
        state.recorded(id, outcome).closed == state.closed,
        state.recorded(id, outcome).unconfirmed_startup == state.unconfirmed_startup,
        state.recorded(id, outcome).reviews.len() == state.reviews.len(),
        forall|i: int|
            0 <= i < state.reviews.len() ==> {
                let before = state.reviews[i];
                let after = #[trigger] state.recorded(id, outcome).reviews[i];
                &&& after.id == before.id
                &&& before.id == id && before.outcome is Pending ==> after.outcome == outcome
                &&& before.id != id || !(before.outcome is Pending) ==> after.outcome
                    == before.outcome
            },
{
}

/// The review at `i` has this number and failed, and no earlier one did.
pub open spec fn is_first_failed(reviews: Seq<ReviewState>, id: u64, i: int) -> bool {
    &&& 0 <= i < reviews.len()
    &&& reviews[i].id == id
    &&& reviews[i].outcome is Failed
    &&& forall|j: int|
        0 <= j < i && (#[trigger] reviews[j]).id == id ==> !(reviews[j].outcome is Failed)
}

/// What is recorded of a review is its first failure; without one it is confirmed exactly where
/// some record confirms it, and pending otherwise.
pub proof fn records_are_found(reviews: Seq<ReviewState>, id: u64)
    ensures
        match recorded_outcome(reviews, id) {
            ReviewOutcome::Failed(_) => exists|i: int| #[trigger]
                is_first_failed(reviews, id, i) && reviews[i].outcome == recorded_outcome(
                    reviews,
                    id,
                ),
            ReviewOutcome::Confirmed => {
                &&& exists|i: int|
                    0 <= i < reviews.len() && (#[trigger] reviews[i]).id == id
                        && reviews[i].outcome is Confirmed
                &&& forall|i: int|
                    0 <= i < reviews.len() && (#[trigger] reviews[i]).id == id ==> !(
                    reviews[i].outcome is Failed)
            },
            ReviewOutcome::Pending => forall|i: int|
                0 <= i < reviews.len() && (#[trigger] reviews[i]).id == id
                    ==> reviews[i].outcome is Pending,
        },
    decreases reviews.len(),
{
    if reviews.len() > 0 {
        let before = reviews.drop_last();
        let n = reviews.len() - 1;
        records_are_found(before, id);
        assert(forall|i: int| 0 <= i < n ==> #[trigger] before[i] == reviews[i]);
        if recorded_outcome(before, id) is Failed {
            let i = choose|i: int| #[trigger]
                is_first_failed(before, id, i) && before[i].outcome == recorded_outcome(before, id);
            assert forall|j: int| 0 <= j < i && (#[trigger] reviews[j]).id == id implies !(
            reviews[j].outcome is Failed) by {
                assert(before[j] == reviews[j]);
            }
            assert(before[i] == reviews[i]);
            assert(is_first_failed(reviews, id, i));
        } else {
            assert forall|i: int| 0 <= i < n && (#[trigger] reviews[i]).id == id implies !(
            reviews[i].outcome is Failed) by {
                assert(before[i] == reviews[i]);
            }
            if reviews[n].id == id && reviews[n].outcome is Failed {
                assert(is_first_failed(reviews, id, n));
            } else if recorded_outcome(reviews, id) is Confirmed {
                if reviews[n].id != id || reviews[n].outcome is Pending {
                    let i = choose|i: int|
                        0 <= i < before.len() && (#[trigger] before[i]).id == id
                            && before[i].outcome is Confirmed;
                    assert(reviews[i] == before[i]);
                } else {
                    assert(reviews[n].outcome is Confirmed);
                }
                assert forall|i: int|
                    0 <= i < reviews.len() && (#[trigger] reviews[i]).id == id implies !(
                reviews[i].outcome is Failed) by {}
            } else {
                assert forall|i: int|
                    0 <= i < reviews.len() && (
                    #[trigger] reviews[i]).id == id implies reviews[i].outcome is Pending by {
                    if i < n {
                        assert(before[i] == reviews[i]);
                    }
                }
            }
        }
    }
}

/// A shutdown first stops every registered review, in order; later ones are those whose number is
/// not among the first, in order.
pub proof fn shutdowns_reach_first_and_later_reviews(
    reviews: Seq<ReviewState>,
    initial: Seq<u64>,
    review: ReviewState,
)
    ensures
        review_ids(reviews).len() == reviews.len(),
        forall|i: int| 0 <= i < reviews.len() ==> #[trigger] review_ids(reviews)[i] == reviews[i].id,
        ids_beyond(Seq::empty(), initial) == Seq::<u64>::empty(),
        initial.contains(review.id) ==> ids_beyond(reviews.push(review), initial) == ids_beyond(
            reviews,
            initial,
        ),
        !initial.contains(review.id) ==> ids_beyond(reviews.push(review), initial) == ids_beyond(
            reviews,
            initial,
        ).push(review.id),
{
    assert(reviews.push(review).drop_last() =~= reviews);
}

/// A shutdown is confirmed exactly where the startups ended in time, none was lost, and both
/// rounds of reviews confirmed. Otherwise the startups are reported before the first round, and
/// the first round before the second, each with its own error.
pub proof fn shutdowns_report_startups_then_reviews(
    state: GuardianState,
    admission_closed: bool,
    initial: Result<(), GuardianError>,
    additional: Result<(), GuardianError>,
)
    ensures
        state.verdict(admission_closed, initial, additional) is Ok <==> admission_closed
            && !state.unconfirmed_startup && initial is Ok && additional is Ok,
        !admission_closed || state.unconfirmed_startup ==> state.verdict(
            admission_closed,
            initial,
            additional,
        ) == Err::<(), GuardianError>(GuardianError::StartupUnconfirmed),
        admission_closed && !state.unconfirmed_startup && initial is Err ==> state.verdict(
            admission_closed,
            initial,
            additional,
        ) == initial,
        admission_closed && !state.unconfirmed_startup && initial is Ok ==> state.verdict(
            admission_closed,
            initial,
            additional,
        ) == additional,
{
}

/// A review that finished well has no failure, one that finished badly fails for its reason, and
/// one that did not finish in time has timed out.
pub proof fn reviews_fail_for_their_reason(reason: String)
    ensures
        ReviewShutdown::Finished(Ok(())).failure() is None,
        ReviewShutdown::Finished(Err(reason)).failure() == Some(reason@),
        ReviewShutdown::TimedOut.failure() == Some("guardian shutdown timed out"@),
{
}

/// All reviews confirmed exactly where each finished well; and the first failure is at a review
/// that did not, with none before it.
pub proof fn the_first_failure_comes_first(outcomes: Seq<ReviewShutdown>, i: int)
    ensures
        all_confirmed(outcomes) <==> forall|j: int|
            0 <= j < outcomes.len() ==> (#[trigger] outcomes[j]) == ReviewShutdown::Finished(
                Ok(()),
            ),
        is_first_failure(outcomes, i) <==> {
            &&& 0 <= i < outcomes.len()
            &&& outcomes[i] != ReviewShutdown::Finished(Ok(()))
            &&& forall|j: int|
                0 <= j < i ==> (#[trigger] outcomes[j]) == ReviewShutdown::Finished(Ok(()))
        },
{
    assert forall|j: int| 0 <= j < outcomes.len() implies ((
    #[trigger] outcomes[j]).failure() is None <==> outcomes[j] == ReviewShutdown::Finished(
        Ok(()),
    )) by {
        if let ReviewShutdown::Finished(Ok(done)) = outcomes[j] {
            assert(done == ());
        }
    }
}

/// Each error has its own text, and a failure passes its reason on whole.
pub proof fn guardian_errors_say_what_happened(reason: String)
    ensures
        GuardianError::ShuttingDown.text() == "guardian manager is shutting down"@,
        GuardianError::PreviousUnconfirmed.text()
            == "previous guardian cleanup could not be confirmed"@,
        GuardianError::StartupUnconfirmed.text()
            == "guardian startup cleanup could not be confirmed"@,
        GuardianError::TimedOut.text() == "guardian shutdown timed out"@,
        GuardianError::Failed(reason).text() == reason@,
{
}

} // verus!
