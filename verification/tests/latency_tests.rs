use mihomot::{classify, Classification, LatencyStatus, ProbeError, ProbeState};

#[test]
fn classify_boundaries() {
    assert_eq!(classify(0), Classification::Good);
    assert_eq!(classify(199), Classification::Good);
    assert_eq!(classify(200), Classification::Warn);
    assert_eq!(classify(499), Classification::Warn);
    assert_eq!(classify(500), Classification::Bad);
    assert_eq!(classify(u64::MAX), Classification::Bad);
}

#[test]
fn probe_starts_pending() {
    let p = ProbeState::new();
    assert_eq!(p.generation, 0);
    assert_eq!(p.status, LatencyStatus::Pending);
}

#[test]
fn probe_trigger_marks_testing_and_increments() {
    let mut p = ProbeState::new();
    let g1 = p.trigger();
    assert_eq!(g1, 1);
    assert_eq!(p.status, LatencyStatus::Testing);
    let g2 = p.trigger();
    assert_eq!(g2, 2);
    assert_eq!(p.status, LatencyStatus::Testing);
}

#[test]
fn stale_result_is_discarded() {
    let mut p = ProbeState::new();
    let g1 = p.trigger();
    let g2 = p.trigger();
    // The slow probe of the first batch settles after the re-trigger.
    p.settle(g1, LatencyStatus::Success(10));
    assert_eq!(p.status, LatencyStatus::Testing);
    // The current batch's result lands.
    p.settle(g2, LatencyStatus::Success(42));
    assert_eq!(p.status, LatencyStatus::Success(42));
}

#[test]
fn stale_result_after_fresh_changes_nothing() {
    let mut p = ProbeState::new();
    let g1 = p.trigger();
    let g2 = p.trigger();
    p.settle(g2, LatencyStatus::Failed(ProbeError::ConnectError));
    p.settle(g1, LatencyStatus::Success(5));
    assert_eq!(p.status, LatencyStatus::Failed(ProbeError::ConnectError));
}

#[test]
fn failed_target_can_be_retested() {
    let mut p = ProbeState::new();
    let g1 = p.trigger();
    p.settle(g1, LatencyStatus::Failed(ProbeError::Timeout));
    assert_eq!(p.status, LatencyStatus::Failed(ProbeError::Timeout));
    let g2 = p.trigger();
    assert_eq!(p.status, LatencyStatus::Testing);
    p.settle(g2, LatencyStatus::Success(77));
    assert_eq!(p.status, LatencyStatus::Success(77));
}
