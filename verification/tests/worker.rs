use axiom_trade_bot::registry::{SpawnStep, WorkerRegistry};
use axiom_trade_bot::worker::{Commitment, CopyTradeWorker, LogSubscription, WorkerAction};

#[test]
fn a_worker_connects_subscribes_and_reads() {
    let mut worker = CopyTradeWorker::new("target".to_string(), "key".to_string());
    assert_eq!(worker.target_wallet(), "target");
    assert_eq!(worker.pending(), WorkerAction::Connect);
    worker.step(true);
    assert_eq!(worker.pending(), WorkerAction::Subscribe);
    worker.step(true);
    for _ in 0..100 {
        assert_eq!(worker.pending(), WorkerAction::ReadLog);
        worker.step(true);
    }
    assert_eq!(worker.target_wallet(), "target");
}

#[test]
fn the_wait_doubles_up_to_a_minute() {
    let mut worker = CopyTradeWorker::new("target".to_string(), "key".to_string());
    for secs in [1, 2, 4, 8, 16, 32, 60, 60, 60] {
        assert_eq!(worker.pending(), WorkerAction::Connect);
        worker.step(false);
        assert_eq!(worker.pending(), WorkerAction::Sleep(secs));
        worker.step(true);
    }
}

#[test]
fn a_failed_subscription_waits_too() {
    let mut worker = CopyTradeWorker::new("target".to_string(), "key".to_string());
    for secs in [1, 2, 4] {
        worker.step(true);
        assert_eq!(worker.pending(), WorkerAction::Subscribe);
        worker.step(false);
        assert_eq!(worker.pending(), WorkerAction::Sleep(secs));
        worker.step(true);
        assert_eq!(worker.pending(), WorkerAction::Connect);
    }
}

#[test]
fn a_subscription_resets_the_wait() {
    let mut worker = CopyTradeWorker::new("target".to_string(), "key".to_string());
    for _ in 0..5 {
        worker.step(false);
        worker.step(true);
    }
    worker.step(true);
    worker.step(true);
    assert_eq!(worker.pending(), WorkerAction::ReadLog);
    worker.step(false);
    assert_eq!(worker.pending(), WorkerAction::Sleep(1));
    worker.step(true);
    assert_eq!(worker.pending(), WorkerAction::Connect);
    worker.step(false);
    assert_eq!(worker.pending(), WorkerAction::Sleep(2));
}

#[test]
fn a_wait_is_followed_by_a_connection_either_way() {
    for woke in [true, false] {
        let mut worker = CopyTradeWorker::new("target".to_string(), "key".to_string());
        worker.step(false);
        worker.step(woke);
        assert_eq!(worker.pending(), WorkerAction::Connect);
    }
}

#[test]
fn a_subscription_mentions_the_target_alone() {
    let mut worker = CopyTradeWorker::new("target".to_string(), "key".to_string());
    for _ in 0..3 {
        worker.step(true);
        assert_eq!(worker.pending(), WorkerAction::Subscribe);
        assert_eq!(
            worker.subscription(),
            LogSubscription {
                mentions: vec!["target".to_string()],
                commitment: Commitment::Confirmed,
            }
        );
        worker.step(true);
        worker.step(false);
        worker.step(true);
    }
}

/// The steps that a worker is given for these outcomes.
fn steps(worker: &mut CopyTradeWorker, outcomes: &[bool]) -> Vec<WorkerAction> {
    let mut steps = vec![worker.pending()];
    for outcome in outcomes {
        worker.step(*outcome);
        steps.push(worker.pending());
    }
    steps
}

#[test]
fn every_connection_is_followed_by_one_subscription() {
    let outcomes = [false, true, true, false, true, true, true, true, false, true, true];
    let mut worker = CopyTradeWorker::new("target".to_string(), "key".to_string());
    let steps = steps(&mut worker, &outcomes);
    for i in 0..steps.len() {
        let connected = i > 0 && steps[i - 1] == WorkerAction::Connect && outcomes[i - 1];
        assert_eq!(steps[i] == WorkerAction::Subscribe, connected);
    }
}

#[test]
fn the_private_key_makes_no_difference() {
    let outcomes = [false, true, true, false, true, true, true, true, false, true, false];
    let mut worker = CopyTradeWorker::new("target".to_string(), "key".to_string());
    let mut other = CopyTradeWorker::new("target".to_string(), "another key".to_string());
    assert_eq!(steps(&mut worker, &outcomes), steps(&mut other, &outcomes));
    assert_eq!(worker.subscription(), other.subscription());
}

#[test]
fn subscribing_again_replaces_the_worker() {
    let mut registry: WorkerRegistry<&str> = WorkerRegistry::new();
    assert_eq!(registry.spawn_step(7), SpawnStep::Start);
    assert_eq!(registry.register(7, "first"), None);
    assert_eq!(registry.spawn_step(-8), SpawnStep::Start);
    assert_eq!(registry.register(-8, "other"), None);
    assert_eq!(registry.spawn_step(7), SpawnStep::Abort("first"));
    assert_eq!(registry.spawn_step(7), SpawnStep::Start);
    assert_eq!(registry.register(7, "second"), None);
    assert_eq!(registry.spawn_step(7), SpawnStep::Abort("second"));
    assert_eq!(registry.spawn_step(-8), SpawnStep::Abort("other"));
}

#[test]
fn a_worker_that_was_not_taken_out_is_displaced() {
    let mut registry: WorkerRegistry<u32> = WorkerRegistry::new();
    assert_eq!(registry.register(1, 10), None);
    assert_eq!(registry.register(1, 11), Some(10));
    assert_eq!(registry.spawn_step(1), SpawnStep::Abort(11));
}

#[test]
fn a_series_of_spawnings_leaves_one_worker_for_each_user() {
    let mut registry: WorkerRegistry<usize> = WorkerRegistry::new();
    let mut running: Vec<(i64, usize)> = vec![];
    for (handle, user) in [5, 6, 5, 5, -1, 6, 5].into_iter().enumerate() {
        loop {
            match registry.spawn_step(user) {
                SpawnStep::Abort(previous) => {
                    assert!(running.contains(&(user, previous)));
                    running.retain(|worker| *worker != (user, previous));
                }
                SpawnStep::Start => break,
            }
        }
        assert!(running.iter().all(|worker| worker.0 != user));
        running.push((user, handle));
        assert_eq!(registry.register(user, handle), None);
    }
    running.sort();
    assert_eq!(running, vec![(-1, 4), (5, 6), (6, 5)]);
    for (user, handle) in running {
        assert_eq!(registry.spawn_step(user), SpawnStep::Abort(handle));
    }
}
