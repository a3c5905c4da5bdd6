use sadl::download::{after_attempt, apply_chunks, run_retry, Progress, RetryDecision, RETRY_DELAY_SECS};
use sadl::errors::SadlError;

#[test]
fn missing_content_length_is_hard_failure() {
    let r = Progress::start_attempt(None);
    assert!(matches!(r, Err(SadlError::MissingContentLength)));
}

#[test]
fn attempt_starts_from_zero_bytes() {
    let p = Progress::start_attempt(Some(10)).unwrap();
    assert_eq!(p.downloaded, 0);
    assert_eq!(p.total, 10);
}

#[test]
fn running_count_never_exceeds_total() {
    let mut p = Progress::start_attempt(Some(10)).unwrap();
    let chunks: Vec<u64> = vec![4, 4, 4, 4];
    for len in chunks {
        p.record_chunk(len);
        assert!(p.downloaded <= p.total);
    }
    assert_eq!(p.downloaded, 10);
}

#[test]
fn exact_delivery_reaches_total() {
    assert_eq!(apply_chunks(10, &vec![3, 3, 4]), 10);
}

#[test]
fn short_delivery_stays_below_total() {
    assert_eq!(apply_chunks(10, &vec![3, 3]), 6);
    assert_eq!(apply_chunks(10, &Vec::new()), 0);
}

#[test]
fn over_delivery_is_clamped() {
    assert_eq!(apply_chunks(10, &vec![20]), 10);
    assert_eq!(apply_chunks(10, &vec![9, 9]), 10);
    assert_eq!(apply_chunks(0, &vec![1]), 0);
}

#[test]
fn success_stops_the_loop() {
    let mut remaining: usize = 20;
    assert_eq!(after_attempt(&mut remaining, true), RetryDecision::Stop);
    assert_eq!(remaining, 20);
}

#[test]
fn failure_spends_one_unit_and_retries() {
    let mut remaining: usize = 2;
    assert_eq!(after_attempt(&mut remaining, false), RetryDecision::RetryAfterDelay);
    assert_eq!(remaining, 1);
    assert_eq!(after_attempt(&mut remaining, false), RetryDecision::Stop);
    assert_eq!(remaining, 0);
}

#[test]
fn zero_budget_stops_after_one_attempt() {
    let mut remaining: usize = 0;
    assert_eq!(after_attempt(&mut remaining, false), RetryDecision::Stop);
    assert_eq!(remaining, 0);
    assert_eq!(run_retry(0, &vec![false]), (1, false));
    assert_eq!(run_retry(0, &vec![true]), (1, true));
}

#[test]
fn exactly_budget_attempts_when_last_succeeds() {
    let outcomes: Vec<bool> = vec![false, false, false, false, true];
    assert_eq!(run_retry(5, &outcomes), (5, true));
}

#[test]
fn early_success_stops_early() {
    let outcomes: Vec<bool> = vec![true, false];
    assert_eq!(run_retry(2, &outcomes), (1, true));
    let outcomes: Vec<bool> = vec![false, true, false];
    assert_eq!(run_retry(3, &outcomes), (2, true));
}

#[test]
fn exhausted_budget_ends_without_success() {
    let outcomes: Vec<bool> = vec![false, false, false];
    assert_eq!(run_retry(3, &outcomes), (3, false));
}

#[test]
fn delay_is_five_seconds() {
    assert_eq!(RETRY_DELAY_SECS, 5);
}
