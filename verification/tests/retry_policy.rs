use bridge_core::retry::{AttemptOutcome, Backoff, RetryStep};

#[test]
fn auto_join_waits_two_four_eight_then_gives_up() {
    let mut policy = Backoff::auto_join();
    assert_eq!(policy, Backoff { delay: 2, factor: 2, cap: 8 });
    let mut attempts = 0;
    let mut waited = 0;
    loop {
        attempts += 1;
        match policy.on_outcome(AttemptOutcome::Failed) {
            RetryStep::RetryAfter(wait) => waited += wait,
            RetryStep::AbandonAfter(wait) => {
                waited += wait;
                break;
            }
            step => panic!("unexpected step {step:?}"),
        }
    }
    assert_eq!(attempts, 3);
    assert_eq!(waited, 14);
}

#[test]
fn auto_join_steps_are_exact() {
    let mut policy = Backoff::auto_join();
    assert_eq!(policy.on_outcome(AttemptOutcome::Failed), RetryStep::RetryAfter(2));
    assert_eq!(policy.delay, 4);
    assert_eq!(policy.on_outcome(AttemptOutcome::Failed), RetryStep::RetryAfter(4));
    assert_eq!(policy.delay, 8);
    assert_eq!(policy.on_outcome(AttemptOutcome::Failed), RetryStep::AbandonAfter(8));
    assert_eq!(policy.delay, 16);
}

#[test]
fn success_ends_the_retries() {
    let mut policy = Backoff::auto_join();
    assert_eq!(policy.on_outcome(AttemptOutcome::Failed), RetryStep::RetryAfter(2));
    assert_eq!(policy.on_outcome(AttemptOutcome::Succeeded), RetryStep::Done);
    assert_eq!(policy, Backoff { delay: 4, factor: 2, cap: 8 });
}

#[test]
fn a_fatal_failure_is_not_waited_out() {
    let mut policy = Backoff::auto_join();
    assert_eq!(policy.on_outcome(AttemptOutcome::Fatal), RetryStep::Abort);
    assert_eq!(policy, Backoff::auto_join());
}

#[test]
fn the_cap_itself_is_still_retried() {
    let mut policy = Backoff::new(1, 3, 9);
    assert_eq!(policy.on_outcome(AttemptOutcome::Failed), RetryStep::RetryAfter(1));
    assert_eq!(policy.on_outcome(AttemptOutcome::Failed), RetryStep::RetryAfter(3));
    assert_eq!(policy.on_outcome(AttemptOutcome::Failed), RetryStep::AbandonAfter(9));
}

#[test]
fn a_delay_beyond_the_machine_is_beyond_the_cap() {
    let mut policy = Backoff::new(u64::MAX, 2, u64::MAX);
    assert_eq!(policy.on_outcome(AttemptOutcome::Failed), RetryStep::AbandonAfter(u64::MAX));
    assert_eq!(policy.delay, u64::MAX);
}

#[test]
fn a_factor_of_one_never_gives_up() {
    let mut policy = Backoff::new(5, 1, 5);
    for _ in 0..100 {
        assert_eq!(policy.on_outcome(AttemptOutcome::Failed), RetryStep::RetryAfter(5));
    }
}

#[test]
fn a_growing_policy_gives_up_within_its_bound() {
    for (delay, factor, cap) in [(1u64, 2u64, 100u64), (3, 5, 1000), (7, 2, 7), (9, 3, 2), (1, 2, 1)] {
        let mut policy = Backoff::new(delay, factor, cap);
        let most = if delay <= cap { cap - delay + 2 } else { 1 };
        let mut steps = 0;
        loop {
            steps += 1;
            match policy.on_outcome(AttemptOutcome::Failed) {
                RetryStep::RetryAfter(_) => {}
                _ => break,
            }
        }
        assert!(steps <= most, "{steps} steps, at most {most}");
    }
    let mut policy = Backoff::new(1, 2, 100);
    let mut waits = Vec::new();
    loop {
        match policy.on_outcome(AttemptOutcome::Failed) {
            RetryStep::RetryAfter(wait) => waits.push(wait),
            RetryStep::AbandonAfter(wait) => {
                waits.push(wait);
                break;
            }
            step => panic!("unexpected step {step:?}"),
        }
    }
    assert_eq!(waits, vec![1, 2, 4, 8, 16, 32, 64]);
}
