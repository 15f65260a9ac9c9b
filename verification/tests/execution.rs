use frontrunner_bot::controller::{RunController, RunPolicy};
use frontrunner_bot::engine::{
    AttemptEvent, ChainContext, EngineAction, ExecStatus, ExecutionAttempt, ExecutionError,
    NonceAllocator,
};
use frontrunner_bot::amount::Amount;
use frontrunner_bot::hexstr::submission_hash_hex;
use frontrunner_bot::types::{Address, TxHash};

fn sender() -> Address {
    Address { hi: 0xCAFE, lo: 0xF00D }
}

fn context() -> ChainContext {
    ChainContext {
        chain_id: 10_143,
        fee_cap: 52_000_000_000,
        tip_cap: 2_000_000_000,
        balance: Amount::from_u128(1_000_000_000_000_000_000),
        nonce: 7,
    }
}

fn hash() -> TxHash {
    TxHash { bytes: vec![0xABu8; 32] }
}

#[test]
fn attempt_walks_the_required_order() {
    let mut a = ExecutionAttempt::begin(sender());
    assert_eq!(a.status, ExecStatus::Building);
    assert_eq!(a.next_action(), EngineAction::QueryContext);

    a.advance(AttemptEvent::ContextReady(context()));
    assert_eq!(a.status, ExecStatus::Building);
    assert_eq!(a.next_action(), EngineAction::EstimateGas);

    a.advance(AttemptEvent::GasEstimated(21_000));
    assert_eq!(a.next_action(), EngineAction::Sign);
    let req = a.request.as_ref().expect("request is filled after the estimate");
    assert_eq!(req.sender, sender());
    assert_eq!(req.fee_cap, 52_000_000_000);
    assert_eq!(req.tip_cap, 2_000_000_000);
    assert_eq!(req.gas_limit, 21_000);
    assert_eq!(req.chain_id, 10_143);
    assert_eq!(req.nonce, 7);

    a.advance(AttemptEvent::PayloadSigned(hash()));
    assert_eq!(a.status, ExecStatus::Signed);
    assert_eq!(a.next_action(), EngineAction::Submit);

    a.advance(AttemptEvent::SubmitAccepted);
    assert_eq!(a.status, ExecStatus::Submitted);
    assert_eq!(a.next_action(), EngineAction::AwaitReceipt);

    a.advance(AttemptEvent::ReceiptSuccess);
    assert_eq!(a.status, ExecStatus::Confirmed);
    assert_eq!(a.next_action(), EngineAction::Done);
}

#[test]
fn receipt_failure_classifies_as_reverted() {
    let mut a = ExecutionAttempt::begin(sender());
    a.advance(AttemptEvent::ContextReady(context()));
    a.advance(AttemptEvent::GasEstimated(21_000));
    a.advance(AttemptEvent::PayloadSigned(hash()));
    a.advance(AttemptEvent::SubmitAccepted);
    a.advance(AttemptEvent::ReceiptReverted);
    assert_eq!(a.status, ExecStatus::Reverted);
}

#[test]
fn context_failure_terminates_the_attempt() {
    let mut a = ExecutionAttempt::begin(sender());
    a.advance(AttemptEvent::ContextFailed);
    assert_eq!(a.status, ExecStatus::Failed(ExecutionError::ContextUnavailable));
    assert_eq!(a.next_action(), EngineAction::Done);
}

#[test]
fn failed_estimate_means_would_revert() {
    let mut a = ExecutionAttempt::begin(sender());
    a.advance(AttemptEvent::ContextReady(context()));
    a.advance(AttemptEvent::EstimateFailed);
    assert_eq!(a.status, ExecStatus::Failed(ExecutionError::WouldRevert));
}

#[test]
fn missing_receipt_means_receipt_unavailable() {
    let mut a = ExecutionAttempt::begin(sender());
    a.advance(AttemptEvent::ContextReady(context()));
    a.advance(AttemptEvent::GasEstimated(21_000));
    a.advance(AttemptEvent::PayloadSigned(hash()));
    a.advance(AttemptEvent::SubmitAccepted);
    a.advance(AttemptEvent::ReceiptFailed);
    assert_eq!(a.status, ExecStatus::Failed(ExecutionError::ReceiptUnavailable));
}

#[test]
fn terminal_states_absorb_every_event() {
    let mut a = ExecutionAttempt::begin(sender());
    a.advance(AttemptEvent::ContextFailed);
    a.advance(AttemptEvent::ContextReady(context()));
    a.advance(AttemptEvent::SubmitAccepted);
    a.advance(AttemptEvent::ReceiptSuccess);
    assert_eq!(a.status, ExecStatus::Failed(ExecutionError::ContextUnavailable));
}

#[test]
fn rejected_submission_fails_and_the_loop_proceeds() {
    // Gas estimation succeeds, the network refuses the payload: the attempt
    // terminates in SubmissionRejected and the loop schedules its next cycle.
    let mut a = ExecutionAttempt::begin(sender());
    a.advance(AttemptEvent::ContextReady(context()));
    a.advance(AttemptEvent::GasEstimated(21_000));
    a.advance(AttemptEvent::PayloadSigned(hash()));
    a.advance(AttemptEvent::SubmitRejected);
    assert_eq!(a.status, ExecStatus::Failed(ExecutionError::SubmissionRejected));
    assert_eq!(a.next_action(), EngineAction::Done);

    let mut c = RunController::new(RunPolicy { max_iterations: 3, delay: 1 });
    c.record_outcome(a.status, None);
    assert_eq!(c.completed, 1);
    assert!(c.should_continue());
    assert_eq!(c.delay_units(), 1);
}

#[test]
fn run_loop_performs_exactly_the_budgeted_iterations() {
    let mut c = RunController::new(RunPolicy { max_iterations: 3, delay: 5 });
    let outcomes = [
        ExecStatus::Confirmed,
        ExecStatus::Failed(ExecutionError::SubmissionRejected),
        ExecStatus::Reverted,
    ];
    let mut iterations = 0;
    let mut i = 0;
    while c.should_continue() {
        c.record_outcome(outcomes[i], None);
        assert_eq!(c.delay_units(), 5);
        iterations += 1;
        i += 1;
    }
    assert_eq!(iterations, 3);
    assert_eq!(c.completed, 3);
    assert_eq!(c.log.len(), 3);
    assert_eq!(c.log[0].index, 0);
    assert_eq!(c.log[2].index, 2);
    assert_eq!(c.log[1].terminal, ExecStatus::Failed(ExecutionError::SubmissionRejected));
}

#[test]
fn zero_budget_runs_no_iteration() {
    let c = RunController::new(RunPolicy { max_iterations: 0, delay: 1 });
    assert!(!c.should_continue());
    assert_eq!(c.completed, 0);
}

#[test]
fn reserved_nonces_strictly_increase() {
    let mut alloc = NonceAllocator::new(41);
    let n0 = alloc.reserve_next();
    let n1 = alloc.reserve_next();
    let n2 = alloc.reserve_next();
    assert_eq!((n0, n1, n2), (41, 42, 43));
    assert!(n0 < n1 && n1 < n2);
    assert_eq!(alloc.next, 44);
}

#[test]
fn submission_hash_renders_lowercase_hex() {
    let mut bytes = vec![0u8; 32];
    bytes[0] = 0x00;
    bytes[1] = 0xFF;
    bytes[2] = 0x1A;
    bytes[31] = 0x0B;
    let h = TxHash { bytes };
    let s = submission_hash_hex(&h);
    assert_eq!(
        s,
        "00ff1a000000000000000000000000000000000000000000000000000000000b",
    );
    assert_eq!(s.len(), 64);
}
