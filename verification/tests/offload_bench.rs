//! Tests of the HMAC offload protocol state machine and the benchmark
//! driver.

use hotp::bench::{BenchAction, HmacBench};
use hotp::hotp::DriverError;
use hotp::offload::{OffloadAction, OffloadClient, OffloadEvent};

#[test]
fn offload_happy_path_in_protocol_order() {
    let mut c = OffloadClient::new();
    let mut actions = Vec::new();
    // Every syscall succeeds; the second wait delivers the completion.
    let mut waited = false;
    loop {
        let a = match c.next_action() {
            Some(a) => a,
            None => break,
        };
        actions.push(a);
        let ev = match a {
            OffloadAction::Wait => {
                if waited {
                    OffloadEvent::Completed(0, 32)
                } else {
                    waited = true;
                    OffloadEvent::Pending
                }
            }
            OffloadAction::Revoke => OffloadEvent::Revoked,
            _ => OffloadEvent::Accepted,
        };
        c.step(ev);
    }
    assert_eq!(
        actions,
        vec![
            OffloadAction::SelectAlgorithm,
            OffloadAction::ShareKey,
            OffloadAction::ShareData,
            OffloadAction::ShareDest,
            OffloadAction::SubscribeDone,
            OffloadAction::Run,
            OffloadAction::Wait,
            OffloadAction::Wait,
            OffloadAction::Revoke,
        ]
    );
    assert_eq!(c.outcome, Some(Ok((0, 32))));
    assert!(!c.key_bound && !c.data_bound && !c.dest_bound && !c.done_bound);
}

#[test]
fn rejected_configuration_aborts_before_any_share() {
    let mut c = OffloadClient::new();
    assert_eq!(c.next_action(), Some(OffloadAction::SelectAlgorithm));
    c.step(OffloadEvent::Rejected(2));
    assert_eq!(c.next_action(), None);
    assert_eq!(c.outcome, Some(Err(DriverError { status: 2 })));
    assert!(!c.key_bound && !c.data_bound && !c.dest_bound && !c.done_bound);
}

#[test]
fn rejected_share_revokes_partial_transaction() {
    let mut c = OffloadClient::new();
    c.step(OffloadEvent::Accepted); // algorithm selected
    c.step(OffloadEvent::Accepted); // key shared
    c.step(OffloadEvent::Accepted); // data shared
    assert!(c.key_bound && c.data_bound);
    assert_eq!(c.next_action(), Some(OffloadAction::ShareDest));
    c.step(OffloadEvent::Rejected(9));
    // The failure is recorded, but the bindings made so far must still be
    // released before the call is over.
    assert_eq!(c.next_action(), Some(OffloadAction::Revoke));
    c.step(OffloadEvent::Revoked);
    assert_eq!(c.next_action(), None);
    assert_eq!(c.outcome, Some(Err(DriverError { status: 9 })));
    assert!(!c.key_bound && !c.data_bound && !c.dest_bound && !c.done_bound);
}

#[test]
fn driver_reported_failure_still_revokes() {
    let mut c = OffloadClient::new();
    for _ in 0..6 {
        c.step(OffloadEvent::Accepted);
    }
    assert_eq!(c.next_action(), Some(OffloadAction::Wait));
    c.step(OffloadEvent::Completed(5, 0));
    assert_eq!(c.next_action(), Some(OffloadAction::Revoke));
    c.step(OffloadEvent::Revoked);
    // A non-zero result code is delivered to the caller, distinct from a
    // syscall failure: the pair itself comes back.
    assert_eq!(c.outcome, Some(Ok((5, 0))));
    assert!(!c.key_bound && !c.data_bound && !c.dest_bound && !c.done_bound);
}

#[test]
fn bench_feeds_rounds_then_runs() {
    let mut b = HmacBench::new(3);
    assert_eq!(b.start(), BenchAction::AddData);
    assert_eq!(b.add_data_done(), BenchAction::AddData);
    assert_eq!(b.add_data_done(), BenchAction::AddData);
    assert_eq!(b.add_data_done(), BenchAction::Run);
    assert_eq!(b.add_data_cnt, 3);
}

#[test]
fn bench_with_no_rounds_runs_at_once() {
    let mut b = HmacBench::new(0);
    assert_eq!(b.start(), BenchAction::Run);
    assert_eq!(b.add_data_iter(), BenchAction::Run);
}
