use ejsr::ops::HostOp;
use ejsr::pending::OpResult;
use ejsr::pending::PendingOperation;

#[test]
fn a_fresh_operation_is_unsettled() {
    let p = PendingOperation::register(7, HostOp::ReadFile);
    assert!(!p.settled());
    assert_eq!(p.deliver(), None);
}

#[test]
fn settling_writes_the_one_outcome() {
    let mut p = PendingOperation::register(7, HostOp::ReadFile);
    p.settle(OpResult::Value(String::from("file text")));
    assert!(p.settled());
    assert_eq!(p.deliver(), Some(OpResult::Value(String::from("file text"))));
}

#[test]
fn a_failure_outcome_is_delivered_as_written() {
    let mut p = PendingOperation::register(3, HostOp::Fetch);
    p.settle(OpResult::Error(String::from("connection refused")));
    assert_eq!(p.deliver(), Some(OpResult::Error(String::from("connection refused"))));
}
