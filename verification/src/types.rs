//! Plain-value data model of the pipeline.
//!
//! Chain-native values are held as integers and byte vectors so that every
//! rule that reads them can be verified: an account address is its 160-bit
//! value split into two machine words, a transaction hash is its 32 raw
//! bytes, and a pending transaction carries exactly the fields the analyzer
//! reads.

use vstd::prelude::*;
use crate::amount::{Amount, RISK_SCALE, profit_clears_bar};

verus! {

/// A 160-bit account address: the 4 most significant bytes in `hi`,
/// the 16 least significant in `lo`.
#[derive(Clone, Copy, PartialEq, Eq, Structural, Debug, Hash)]
pub struct Address {
    pub hi: u32,
    pub lo: u128,
}

impl Address {
    /// The 160-bit value the address stands for.
    pub open spec fn as_int(self) -> int {
        self.hi * 0x1_0000_0000_0000_0000_0000_0000_0000_0000int + self.lo
    }
}

/// The canonical 32-byte hash of a signed transaction payload.
#[derive(Clone, Debug)]
pub struct TxHash {
    pub bytes: Vec<u8>,
}

impl TxHash {
    pub open spec fn wf(self) -> bool {
        self.bytes.len() == 32
    }
}

/// A chain-native transaction as observed before inclusion. Read-only input
/// of the analyzer; the pipeline never mutates one.
#[derive(Clone, Debug)]
pub struct PendingTransaction {
    /// Account that sent the observed transaction.
    pub sender: Address,
    /// Account or contract the transaction targets; absent for deployments.
    pub recipient: Option<Address>,
    /// The call data exactly as observed.
    pub calldata: Vec<u8>,
    /// Native value carried by the transaction.
    pub value: Amount,
}

/// Structured signal derived from one pending transaction.
#[derive(Clone, Copy, Debug)]
pub struct TransactionAnalysis {
    /// Whether any exploitable pattern was detected.
    pub is_arbitrage: bool,
    /// The venue implicated, if any.
    pub exchange_address: Option<Address>,
    /// The two assets involved, order-significant: (base, quote).
    pub token_pair: Option<(Address, Address)>,
    /// Magnitude of the observed price skew, in smallest token units.
    pub price_difference: Option<Amount>,
}

impl TransactionAnalysis {
    /// A detection populates every optional field; a non-detection none.
    pub open spec fn wf(self) -> bool {
        if self.is_arbitrage {
            self.exchange_address is Some && self.token_pair is Some
                && self.price_difference is Some
        } else {
            self.exchange_address is None && self.token_pair is None
                && self.price_difference is None
        }
    }
}

/// A detected, time-bounded, profitable chance to act ahead of an observed
/// pending transaction. Immutable and single-use.
#[derive(Clone, Debug)]
pub struct ArbitrageOpportunity {
    /// The originating pending transaction, read-only.
    pub target_tx: PendingTransaction,
    /// Expected gain net of slippage, before gas.
    pub profit_estimate: Amount,
    /// Estimated cost of executing the counter-transaction.
    pub gas_cost: Amount,
    /// Confidence discount in basis points of `RISK_SCALE`:
    /// 0 is certain, `RISK_SCALE` is no confidence.
    pub risk_factor: u64,
    /// Last moment the opportunity is believed to remain valid.
    pub deadline: u64,
}

impl ArbitrageOpportunity {
    /// An opportunity exists only when its risk-discounted profit strictly
    /// exceeds its gas cost.
    pub open spec fn wf(self) -> bool {
        self.risk_factor <= RISK_SCALE && profit_clears_bar(
            self.profit_estimate.as_int(),
            self.gas_cost.as_int(),
            self.risk_factor as int,
        )
    }
}

} // verus!
