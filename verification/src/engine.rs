//! The execution engine: one attempt per run-loop iteration, driven through
//! an explicit state machine.
//!
//! The engine owns every decision of an attempt — which step comes next,
//! what a step's failure means, when the attempt is over — while the
//! suspending chain operations themselves (queries, signing, submission,
//! receipt await) are performed outside and reported back as events. Each
//! event either advances the attempt to its next stage or terminates it,
//! so the attempt's lifecycle is verified for every outcome of every
//! outside operation.
//!
//! States: `Building -> Signed -> Submitted -> {Confirmed | Reverted |
//! Failed}`. The three final states are terminal and absorbing; exactly one
//! of them is reached once the pending operations have been answered.

use vstd::prelude::*;
use crate::amount::Amount;
use crate::types::{Address, TxHash};

verus! {

/// Why an attempt failed before, during or after submission. Per-attempt
/// and non-fatal to the run loop.
#[derive(Clone, Copy, PartialEq, Eq, Structural, Debug)]
pub enum ExecutionError {
    /// Chain id, fees, balance or nonce could not be read, or the signing
    /// capability could not complete the payload.
    ContextUnavailable,
    /// Gas estimation failed: the call would revert on current state.
    WouldRevert,
    /// The network layer refused the signed payload.
    SubmissionRejected,
    /// No receipt could be obtained for the submitted payload.
    ReceiptUnavailable,
}

/// Lifecycle states of one execution attempt.
#[derive(Clone, Copy, PartialEq, Eq, Structural, Debug)]
pub enum ExecStatus {
    /// Parameters are being assembled.
    Building,
    /// The payload is cryptographically committed and immutable.
    Signed,
    /// The network layer accepted the payload for propagation.
    Submitted,
    /// A receipt arrived and reports on-chain success.
    Confirmed,
    /// A receipt arrived and reports on-chain failure.
    Reverted,
    /// A step failed; the attempt never reached a receipt.
    Failed(ExecutionError),
}

/// Read-only chain state an attempt is built against, queried fresh per
/// attempt and never cached across iterations.
#[derive(Clone, Copy, PartialEq, Eq, Structural, Debug)]
pub struct ChainContext {
    pub chain_id: u64,
    /// Maximum total fee per gas unit the submitter will pay.
    pub fee_cap: u128,
    /// Maximum priority fee per gas unit.
    pub tip_cap: u128,
    /// Sender's balance at query time, recorded for the outcome report.
    pub balance: Amount,
    /// Sender's pending nonce.
    pub nonce: u64,
}

/// A fully parameterized unsigned request: every field here is mandatory
/// before signing.
#[derive(Clone, Copy, PartialEq, Eq, Structural, Debug)]
pub struct FilledRequest {
    pub sender: Address,
    pub fee_cap: u128,
    pub tip_cap: u128,
    pub gas_limit: u64,
    pub chain_id: u64,
    pub nonce: u64,
}

/// Outcome of one outside operation, reported back to the engine.
#[derive(Debug)]
pub enum AttemptEvent {
    /// Chain id, fees, balance and nonce were read.
    ContextReady(ChainContext),
    /// Some context query failed.
    ContextFailed,
    /// Gas estimation succeeded with this limit.
    GasEstimated(u64),
    /// Gas estimation failed: the call would revert.
    EstimateFailed,
    /// The payload was signed; this is its canonical hash.
    PayloadSigned(TxHash),
    /// The signing capability failed to produce a payload.
    SigningFailed,
    /// The network layer accepted the payload.
    SubmitAccepted,
    /// The network layer refused the payload.
    SubmitRejected,
    /// A receipt arrived with a success status.
    ReceiptSuccess,
    /// A receipt arrived with a failure status.
    ReceiptReverted,
    /// Awaiting the receipt failed.
    ReceiptFailed,
}

/// The operation the engine is waiting on.
#[derive(Clone, Copy, PartialEq, Eq, Structural, Debug)]
pub enum EngineAction {
    QueryContext,
    EstimateGas,
    Sign,
    Submit,
    AwaitReceipt,
    /// The attempt is in a terminal state.
    Done,
}

pub open spec fn is_terminal(s: ExecStatus) -> bool {
    match s {
        ExecStatus::Confirmed => true,
        ExecStatus::Reverted => true,
        ExecStatus::Failed(_) => true,
        ExecStatus::Building => false,
        ExecStatus::Signed => false,
        ExecStatus::Submitted => false,
    }
}

/// The request an attempt signs: sender and estimated gas limit joined with
/// the queried context. All fields filled in one step.
pub open spec fn filled_from(sender: Address, ctx: ChainContext, gas_limit: u64) -> FilledRequest {
    FilledRequest {
        sender,
        fee_cap: ctx.fee_cap,
        tip_cap: ctx.tip_cap,
        gas_limit,
        chain_id: ctx.chain_id,
        nonce: ctx.nonce,
    }
}

/// One execution attempt: created at the start of an iteration, resolved to
/// exactly one terminal state before the iteration ends, never persisted.
#[derive(Debug)]
pub struct ExecutionAttempt {
    /// The signing identity the attempt submits from.
    pub sender: Address,
    pub status: ExecStatus,
    /// Chain state the request is built against, once queried.
    pub context: Option<ChainContext>,
    /// The fully parameterized request, once gas is estimated.
    pub request: Option<FilledRequest>,
    /// Canonical hash of the signed payload, once signed.
    pub tx_hash: Option<TxHash>,
}

impl ExecutionAttempt {
    /// Stage consistency: what a state promises to have assembled.
    pub open spec fn wf(self) -> bool {
        match self.status {
            ExecStatus::Building => self.tx_hash is None && (self.request is Some
                ==> self.context is Some),
            ExecStatus::Signed => self.context is Some && self.request is Some
                && self.tx_hash is Some,
            ExecStatus::Submitted => self.context is Some && self.request is Some
                && self.tx_hash is Some,
            _ => true,
        }
    }

    /// How far the attempt has advanced; terminal states rank highest.
    pub open spec fn rank(self) -> int {
        match self.status {
            ExecStatus::Building => if self.request is Some {
                2
            } else if self.context is Some {
                1
            } else {
                0
            },
            ExecStatus::Signed => 3,
            ExecStatus::Submitted => 4,
            _ => 5,
        }
    }

    /// A fresh attempt for one iteration.
    pub fn begin(sender: Address) -> (r: ExecutionAttempt)
        ensures
            r == initial_attempt(sender),
            r.wf(),
            r.rank() == 0,
    {
        ExecutionAttempt {
            sender,
            status: ExecStatus::Building,
            context: None,
            request: None,
            tx_hash: None,
        }
    }

    /// The operation the attempt is waiting on, in the required order:
    /// context, gas estimate, signature, submission, receipt.
    pub fn next_action(&self) -> (act: EngineAction)
        ensures
            act == action_of(*self),
    {
        match self.status {
            ExecStatus::Building => {
                if self.context.is_none() {
                    EngineAction::QueryContext
                } else if self.request.is_none() {
                    EngineAction::EstimateGas
                } else {
                    EngineAction::Sign
                }
            },
            ExecStatus::Signed => EngineAction::Submit,
            ExecStatus::Submitted => EngineAction::AwaitReceipt,
            _ => EngineAction::Done,
        }
    }

    /// Feeds the outcome of one outside operation into the attempt.
    ///
    /// Every transition is total: an event that answers the pending
    /// operation advances or terminates the attempt, any other event leaves
    /// it unchanged, and terminal states absorb everything.
    pub fn advance(&mut self, ev: AttemptEvent)
        ensures
            *final(self) == advance_spec(*old(self), ev),
            old(self).wf() ==> final(self).wf(),
    {
        proof {
            lemma_advance_preserves_wf(*self, ev);
        }
        match self.status {
            ExecStatus::Building => {
                if self.context.is_none() {
                    match ev {
                        AttemptEvent::ContextReady(c) => {
                            self.context = Some(c);
                        },
                        AttemptEvent::ContextFailed => {
                            self.status = ExecStatus::Failed(ExecutionError::ContextUnavailable);
                        },
                        _ => {},
                    }
                } else if self.request.is_none() {
                    match ev {
                        AttemptEvent::GasEstimated(g) => {
                            if let Some(ctx) = self.context {
                                self.request = Some(
                                    FilledRequest {
                                        sender: self.sender,
                                        fee_cap: ctx.fee_cap,
                                        tip_cap: ctx.tip_cap,
                                        gas_limit: g,
                                        chain_id: ctx.chain_id,
                                        nonce: ctx.nonce,
                                    },
                                );
                            }
                        },
                        AttemptEvent::EstimateFailed => {
                            self.status = ExecStatus::Failed(ExecutionError::WouldRevert);
                        },
                        _ => {},
                    }
                } else {
                    match ev {
                        AttemptEvent::PayloadSigned(h) => {
                            self.tx_hash = Some(h);
                            self.status = ExecStatus::Signed;
                        },
                        AttemptEvent::SigningFailed => {
                            self.status = ExecStatus::Failed(ExecutionError::ContextUnavailable);
                        },
                        _ => {},
                    }
                }
            },
            ExecStatus::Signed => {
                match ev {
                    AttemptEvent::SubmitAccepted => {
                        self.status = ExecStatus::Submitted;
                    },
                    AttemptEvent::SubmitRejected => {
                        self.status = ExecStatus::Failed(ExecutionError::SubmissionRejected);
                    },
                    _ => {},
                }
            },
            ExecStatus::Submitted => {
                match ev {
                    AttemptEvent::ReceiptSuccess => {
                        self.status = ExecStatus::Confirmed;
                    },
                    AttemptEvent::ReceiptReverted => {
                        self.status = ExecStatus::Reverted;
                    },
                    AttemptEvent::ReceiptFailed => {
                        self.status = ExecStatus::Failed(ExecutionError::ReceiptUnavailable);
                    },
                    _ => {},
                }
            },
            _ => {},
        }
    }
}

pub open spec fn initial_attempt(sender: Address) -> ExecutionAttempt {
    ExecutionAttempt {
        sender,
        status: ExecStatus::Building,
        context: None,
        request: None,
        tx_hash: None,
    }
}

pub open spec fn fail_with(a: ExecutionAttempt, e: ExecutionError) -> ExecutionAttempt {
    ExecutionAttempt { status: ExecStatus::Failed(e), ..a }
}

/// The full transition table of an attempt.
pub open spec fn advance_spec(a: ExecutionAttempt, ev: AttemptEvent) -> ExecutionAttempt {
    match a.status {
        ExecStatus::Building => {
            if a.context is None {
                match ev {
                    AttemptEvent::ContextReady(c) => (ExecutionAttempt {
                        context: Some(c),
                        ..a
                    }),
                    AttemptEvent::ContextFailed => fail_with(a, ExecutionError::ContextUnavailable),
                    _ => a,
                }
            } else if a.request is None {
                match ev {
                    AttemptEvent::GasEstimated(g) => (ExecutionAttempt {
                        request: Some(filled_from(a.sender, a.context->0, g)),
                        ..a
                    }),
                    AttemptEvent::EstimateFailed => fail_with(a, ExecutionError::WouldRevert),
                    _ => a,
                }
            } else {
                match ev {
                    AttemptEvent::PayloadSigned(h) => (ExecutionAttempt {
                        status: ExecStatus::Signed,
                        tx_hash: Some(h),
                        ..a
                    }),
                    AttemptEvent::SigningFailed => fail_with(a, ExecutionError::ContextUnavailable),
                    _ => a,
                }
            }
        },
        ExecStatus::Signed => match ev {
            AttemptEvent::SubmitAccepted => (ExecutionAttempt {
                status: ExecStatus::Submitted,
                ..a
            }),
            AttemptEvent::SubmitRejected => fail_with(a, ExecutionError::SubmissionRejected),
            _ => a,
        },
        ExecStatus::Submitted => match ev {
            AttemptEvent::ReceiptSuccess => (ExecutionAttempt { status: ExecStatus::Confirmed, ..a }),
            AttemptEvent::ReceiptReverted => (ExecutionAttempt { status: ExecStatus::Reverted, ..a }),
            AttemptEvent::ReceiptFailed => fail_with(a, ExecutionError::ReceiptUnavailable),
            _ => a,
        },
        _ => a,
    }
}

/// The operation pending for an attempt, `Done` once terminal.
pub open spec fn action_of(a: ExecutionAttempt) -> EngineAction {
    match a.status {
        ExecStatus::Building => if a.context is None {
            EngineAction::QueryContext
        } else if a.request is None {
            EngineAction::EstimateGas
        } else {
            EngineAction::Sign
        },
        ExecStatus::Signed => EngineAction::Submit,
        ExecStatus::Submitted => EngineAction::AwaitReceipt,
        _ => EngineAction::Done,
    }
}

/// Whether an event answers the operation the attempt is waiting on.
pub open spec fn expected_event(a: ExecutionAttempt, ev: AttemptEvent) -> bool {
    match action_of(a) {
        EngineAction::QueryContext => ev is ContextReady || ev is ContextFailed,
        EngineAction::EstimateGas => ev is GasEstimated || ev is EstimateFailed,
        EngineAction::Sign => ev is PayloadSigned || ev is SigningFailed,
        EngineAction::Submit => ev is SubmitAccepted || ev is SubmitRejected,
        EngineAction::AwaitReceipt => ev is ReceiptSuccess || ev is ReceiptReverted
            || ev is ReceiptFailed,
        EngineAction::Done => false,
    }
}

/// The attempt after a sequence of events has been fed in.
pub open spec fn run(a: ExecutionAttempt, evs: Seq<AttemptEvent>) -> ExecutionAttempt
    decreases evs.len(),
{
    if evs.len() == 0 {
        a
    } else {
        run(advance_spec(a, evs[0]), evs.drop_first())
    }
}

/// A drive of an attempt: until the attempt is terminal, each event answers
/// the operation the attempt is waiting on.
pub open spec fn driving(a: ExecutionAttempt, evs: Seq<AttemptEvent>) -> bool
    decreases evs.len(),
{
    evs.len() == 0 || is_terminal(a.status) || (expected_event(a, evs[0]) && driving(
        advance_spec(a, evs[0]),
        evs.drop_first(),
    ))
}

/// Stage consistency is an invariant of the transition table.
pub proof fn lemma_advance_preserves_wf(a: ExecutionAttempt, ev: AttemptEvent)
    ensures
        a.wf() ==> advance_spec(a, ev).wf(),
{
}

/// Terminal states are absorbing: no event moves an attempt out of one.
pub proof fn lemma_terminal_absorbing(a: ExecutionAttempt, ev: AttemptEvent)
    requires
        is_terminal(a.status),
    ensures
        advance_spec(a, ev) == a,
{
}

/// An event that answers the pending operation strictly advances a
/// well-formed, non-terminal attempt.
pub proof fn lemma_expected_progress(a: ExecutionAttempt, ev: AttemptEvent)
    requires
        a.wf(),
        !is_terminal(a.status),
        expected_event(a, ev),
    ensures
        advance_spec(a, ev).rank() > a.rank(),
{
}

proof fn lemma_run_from_terminal(a: ExecutionAttempt, evs: Seq<AttemptEvent>)
    requires
        is_terminal(a.status),
    ensures
        run(a, evs) == a,
    decreases evs.len(),
{
    if evs.len() > 0 {
        lemma_run_from_terminal(a, evs.drop_first());
    }
}

/// An attempt always reaches exactly one terminal state: driven by events
/// that answer its pending operations — success or failure alike — a fresh
/// attempt is terminal once five events have been processed, and no attempt
/// ever leaves a terminal state.
pub proof fn lemma_attempt_reaches_terminal(a: ExecutionAttempt, evs: Seq<AttemptEvent>)
    requires
        a.wf(),
        driving(a, evs),
        a.rank() + evs.len() >= 5,
    ensures
        is_terminal(run(a, evs).status),
    decreases evs.len(),
{
    if is_terminal(a.status) {
        lemma_run_from_terminal(a, evs);
    } else {
        assert(a.rank() < 5);
        assert(evs.len() > 0);
        lemma_expected_progress(a, evs[0]);
        lemma_advance_preserves_wf(a, evs[0]);
        lemma_attempt_reaches_terminal(advance_spec(a, evs[0]), evs.drop_first());
    }
}

/// Owns the signing identity's nonce sequence. Queried once from chain
/// state when the process starts, then incremented in memory by its single
/// writer; a reserved nonce is never reused, not even on failure.
#[derive(Clone, Copy, PartialEq, Eq, Structural, Debug)]
pub struct NonceAllocator {
    pub next: u64,
}

impl NonceAllocator {
    /// Starts the sequence at the identity's current pending nonce.
    pub fn new(chain_nonce: u64) -> (r: NonceAllocator)
        ensures
            r.next == chain_nonce,
    {
        NonceAllocator { next: chain_nonce }
    }

    /// The only mutating operation: hands out the next nonce exactly once.
    pub fn reserve_next(&mut self) -> (n: u64)
        requires
            old(self).next < u64::MAX,
        ensures
            n == old(self).next,
            final(self).next == old(self).next + 1,
    {
        let n = self.next;
        self.next = self.next + 1;
        n
    }
}

/// The nonce handed out by the `k`-th reservation of an allocator started
/// at `start`.
pub open spec fn nonce_at(start: u64, k: int) -> int {
    start + k
}

/// Nonce monotonicity: across a sequence of reservations from the same
/// identity, the observed nonces are strictly increasing with no repeats.
pub proof fn lemma_nonce_monotonicity(start: u64, i: int, j: int)
    requires
        0 <= i < j,
    ensures
        nonce_at(start, i) < nonce_at(start, j),
{
}

} // verus!
