//! Startup, cleanup and shutdown of guardian reviews.

use codex_lifecycle::guardian::{
    shutdown_reviews, GuardianError, GuardianReviewSession, GuardianSessionLifecycle,
    ReviewShutdown,
};

fn review(id: u64) -> GuardianReviewSession {
    GuardianReviewSession { id, shutdown_result: None }
}

/// Shuts down with every startup ended in time. The reviews that `late` registers come after the
/// first snapshot; those in `failing` do not stop.
fn shut_down(
    lifecycle: &mut GuardianSessionLifecycle,
    late: Vec<GuardianReviewSession>,
    failing: &[(u64, &str)],
) -> Result<(), GuardianError> {
    let initial = lifecycle.begin_shutdown();
    for review in late {
        lifecycle.register(review);
    }
    let initial_result = stop(lifecycle, &initial, failing);
    let additional = lifecycle.additional(&initial);
    let additional_result = stop(lifecycle, &additional, failing);
    lifecycle.shutdown(true, initial_result, additional_result)
}

fn stop(
    lifecycle: &mut GuardianSessionLifecycle,
    ids: &Vec<u64>,
    failing: &[(u64, &str)],
) -> Result<(), GuardianError> {
    let mut outcomes = Vec::new();
    for id in ids {
        let result = match (lifecycle.recorded(*id), failing.iter().find(|(failing, _)| failing == id))
        {
            (Some(recorded), _) => recorded,
            (None, Some((_, reason))) => Err(reason.to_string()),
            (None, None) => Ok(()),
        };
        lifecycle.record_shutdown(*id, result.clone());
        outcomes.push(ReviewShutdown::Finished(result));
    }
    shutdown_reviews(&outcomes)
}

#[test]
fn retired_guardian_failure_remains_visible_after_another_one_succeeds() {
    let mut lifecycle = GuardianSessionLifecycle::new();
    let failed = lifecycle.register(review(1));
    lifecycle.record_shutdown(failed, Err("fixture retired cleanup failed".to_string()));
    lifecycle.register(review(2));
    for _ in 0..2 {
        let error = shut_down(&mut lifecycle, vec![], &[(1, "fixture retired cleanup failed")])
            .expect_err("retired cleanup failure cannot disappear");
        assert!(error.message().contains("fixture retired cleanup failed"));
        assert_eq!(
            lifecycle.reviews[0].shutdown_result,
            Some(Err("fixture retired cleanup failed".to_string()))
        );
        assert_eq!(lifecycle.reviews[1].shutdown_result, Some(Ok(())));
    }
}

#[test]
fn shutdown_drains_guardian_registered_after_its_initial_snapshot() {
    let mut lifecycle = GuardianSessionLifecycle::new();
    let guard = lifecycle.begin_startup().expect("startup begins");
    let initial = lifecycle.begin_shutdown();
    assert!(initial.is_empty());
    assert!(lifecycle.closed);
    let id = lifecycle.spawn(guard, Ok(review(5))).expect("admitted startup");
    let additional = lifecycle.additional(&initial);
    assert_eq!(additional, vec![id]);
    let additional_result = stop(&mut lifecycle, &additional, &[]);
    lifecycle.shutdown(true, Ok(()), additional_result).expect("late cleanup");
    assert_eq!(lifecycle.reviews[0].shutdown_result, Some(Ok(())));
}

#[test]
fn canceled_guardian_constructor_remains_unconfirmed_on_later_shutdowns() {
    let mut lifecycle = GuardianSessionLifecycle::new();
    let guard = lifecycle.begin_startup().expect("startup begins");
    guard.interrupted(&mut lifecycle);
    for _ in 0..2 {
        let error = shut_down(&mut lifecycle, vec![], &[]).expect_err("nothing is confirmed");
        assert_eq!(error.message(), "guardian startup cleanup could not be confirmed");
    }
}

#[test]
fn failed_construction_is_passed_on_and_never_forgotten() {
    let mut lifecycle = GuardianSessionLifecycle::new();
    let guard = lifecycle.begin_startup().expect("startup begins");
    let error = lifecycle.spawn(guard, Err("no model".to_string())).expect_err("failed");
    assert_eq!(error, GuardianError::Failed("no model".to_string()));
    assert_eq!(error.message(), "no model");
    match lifecycle.begin_startup() {
        Err(error) => {
            assert_eq!(error.message(), "previous guardian cleanup could not be confirmed")
        }
        Ok(_) => panic!("the failed startup was not cleaned up"),
    }
    assert_eq!(
        shut_down(&mut lifecycle, vec![], &[]),
        Err(GuardianError::StartupUnconfirmed)
    );
}

#[test]
fn a_closed_lifecycle_begins_no_startup() {
    let mut lifecycle = GuardianSessionLifecycle::new();
    assert_eq!(lifecycle.ensure_open(), Ok(()));
    shut_down(&mut lifecycle, vec![], &[]).expect("nothing to stop");
    assert_eq!(
        lifecycle.ensure_open().map_err(|error| error.message()),
        Err("guardian manager is shutting down".to_string())
    );
    match lifecycle.begin_startup() {
        Err(error) => assert_eq!(error, GuardianError::ShuttingDown),
        Ok(_) => panic!("the shutdown has started"),
    }
}

#[test]
fn a_failed_review_refuses_later_startups() {
    let mut lifecycle = GuardianSessionLifecycle::new();
    lifecycle.register(review(1));
    lifecycle.record_shutdown(1, Err("stuck".to_string()));
    lifecycle.record_shutdown(1, Ok(()));
    assert_eq!(lifecycle.reviews[0].shutdown_result, Some(Err("stuck".to_string())));
    lifecycle.register(review(2));
    assert_eq!(lifecycle.reviews.len(), 2);
    match lifecycle.begin_startup() {
        Err(error) => assert_eq!(error, GuardianError::PreviousUnconfirmed),
        Ok(_) => panic!("a review is stuck"),
    }
}

#[test]
fn confirmed_reviews_are_forgotten_when_another_is_registered() {
    let mut lifecycle = GuardianSessionLifecycle::new();
    for id in 1..4 {
        lifecycle.register(review(id));
    }
    lifecycle.record_shutdown(1, Ok(()));
    lifecycle.record_shutdown(3, Ok(()));
    assert_eq!(lifecycle.register(review(4)), 4);
    let ids: Vec<u64> = lifecycle.reviews.iter().map(|review| review.id).collect();
    assert_eq!(ids, vec![2, 4]);
}

#[test]
fn shutdown_stops_late_reviews_too() {
    let mut lifecycle = GuardianSessionLifecycle::new();
    lifecycle.register(review(1));
    let error = shut_down(&mut lifecycle, vec![review(2)], &[(2, "late one is stuck")])
        .expect_err("the late review is stuck");
    assert_eq!(error.message(), "late one is stuck");
    let error = shut_down(&mut lifecycle, vec![], &[]).expect_err("the record stays");
    assert_eq!(error.message(), "late one is stuck");
}

#[test]
fn an_unended_startup_is_reported_before_the_reviews() {
    let lifecycle = GuardianSessionLifecycle::new();
    let failed = || Err(GuardianError::Failed("review".to_string()));
    assert_eq!(
        lifecycle.shutdown(false, failed(), Ok(())),
        Err(GuardianError::StartupUnconfirmed)
    );
    assert_eq!(lifecycle.shutdown(true, failed(), Ok(())), failed());
    assert_eq!(lifecycle.shutdown(true, Ok(()), failed()), failed());
    assert_eq!(lifecycle.shutdown(true, Ok(()), Ok(())), Ok(()));
}

#[test]
fn the_first_failure_in_order_is_reported() {
    let outcomes = vec![
        ReviewShutdown::Finished(Ok(())),
        ReviewShutdown::TimedOut,
        ReviewShutdown::Finished(Err("later".to_string())),
    ];
    let error = shutdown_reviews(&outcomes).expect_err("one timed out");
    assert_eq!(error, GuardianError::TimedOut);
    assert_eq!(error.message(), "guardian shutdown timed out");
    assert_eq!(shutdown_reviews(&vec![]), Ok(()));
}

#[test]
fn records_are_given_back_and_failures_count_first() {
    let mut lifecycle = GuardianSessionLifecycle::new();
    lifecycle.register(review(1));
    lifecycle.register(review(2));
    assert_eq!(lifecycle.recorded(1), None);
    assert_eq!(lifecycle.recorded(9), None);
    lifecycle.record_shutdown(1, Ok(()));
    lifecycle.record_shutdown(2, Err("stuck".to_string()));
    assert_eq!(lifecycle.recorded(1), Some(Ok(())));
    assert_eq!(lifecycle.recorded(2), Some(Err("stuck".to_string())));
    let id = lifecycle.register(GuardianReviewSession { id: 2, shutdown_result: Some(Ok(())) });
    assert_eq!(lifecycle.recorded(id), Some(Err("stuck".to_string())));
}
