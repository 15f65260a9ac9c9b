//! Transaction analysis and opportunity evaluation.
//!
//! The analyzer consumes one observed pending transaction and emits a
//! structured signal; the evaluator turns that signal into at most one
//! profit/cost/risk-gated opportunity. Both are pure functions of their
//! inputs: the reference prices and fee-market context they consult are
//! plain values refreshed by the caller.
//!
//! The recognized exchange-interaction pattern is a swap call against a
//! configured venue: a 4-byte entry-point selector, the two token addresses
//! of the traded pair (20 bytes each), and the 16-byte big-endian price the
//! trader quoted. Anything else — unknown venue, unknown selector, malformed
//! length — is not an arbitrage signal, never an error.

use vstd::prelude::*;
use crate::amount::{Amount, RISK_SCALE, min_int, profit_clears_bar, clears_profit_bar, gas_cost_of};
use crate::types::{Address, ArbitrageOpportunity, PendingTransaction, TransactionAnalysis};

verus! {

/// Byte length of a recognized swap call: a 4-byte selector, two 20-byte
/// token addresses, and a 16-byte big-endian quoted price.
pub const SWAP_CALLDATA_LEN: usize = 60;

/// Basis points of risk per tick of reference-price staleness.
pub const STALENESS_RISK_BPS: u64 = 100;

/// A recognized exchange venue: its contract address, the 4-byte selector of
/// its swap entry point, and the current reference price of its traded pair,
/// as last read from the external price source.
#[derive(Clone, Copy, PartialEq, Eq, Structural, Debug)]
pub struct Venue {
    pub address: Address,
    pub selector: u32,
    pub reference_price: u128,
}

/// Big-endian value of the `len` bytes of `data` starting at `start`.
pub open spec fn be_bytes(data: Seq<u8>, start: int, len: int) -> int
    decreases len,
{
    if len <= 0 {
        0
    } else {
        be_bytes(data, start, len - 1) * 256 + data[start + len - 1]
    }
}

pub open spec fn pow256(n: nat) -> int
    decreases n,
{
    if n == 0 {
        1
    } else {
        256 * pow256((n - 1) as nat)
    }
}

proof fn lemma_pow256_pos(n: nat)
    ensures
        pow256(n) >= 1,
    decreases n,
{
    if n > 0 {
        lemma_pow256_pos((n - 1) as nat);
    }
}

proof fn lemma_pow256_le(i: nat, j: nat)
    requires
        i <= j,
    ensures
        pow256(i) <= pow256(j),
    decreases j,
{
    if i < j {
        lemma_pow256_le(i, (j - 1) as nat);
        lemma_pow256_pos((j - 1) as nat);
    }
}

proof fn lemma_pow256_values()
    ensures
        pow256(4) == 0x1_0000_0000,
        pow256(16) == 0x1_0000_0000_0000_0000_0000_0000_0000_0000,
{
    reveal_with_fuel(pow256, 17);
}

proof fn lemma_be_bytes_bound(data: Seq<u8>, start: int, len: int)
    ensures
        0 <= be_bytes(data, start, len),
        len >= 0 ==> be_bytes(data, start, len) < pow256(len as nat),
    decreases len,
{
    if len > 0 {
        lemma_be_bytes_bound(data, start, len - 1);
    }
}

/// Reads up to 16 bytes of `data` as a big-endian integer.
fn read_be(data: &Vec<u8>, start: usize, len: usize) -> (r: u128)
    requires
        len <= 16,
        start + len <= data.len(),
    ensures
        r == be_bytes(data@, start as int, len as int),
        r < pow256(len as nat),
{
    let mut acc: u128 = 0;
    let mut i: usize = 0;
    while i < len
        invariant
            i <= len,
            len <= 16,
            start + len <= data.len(),
            acc == be_bytes(data@, start as int, i as int),
            acc < pow256(i as nat),
        decreases len - i,
    {
        proof {
            lemma_pow256_le(i as nat, 15);
            lemma_pow256_values();
            reveal_with_fuel(pow256, 17);
        }
        acc = acc * 256 + (data[start + i] as u128);
        i = i + 1;
    }
    acc
}

/// The 160-bit address written big-endian at `start`.
pub open spec fn address_at(data: Seq<u8>, start: int) -> Address {
    Address {
        hi: be_bytes(data, start, 4) as u32,
        lo: be_bytes(data, start + 4, 16) as u128,
    }
}

fn read_address(data: &Vec<u8>, start: usize) -> (a: Address)
    requires
        start + 20 <= data.len(),
    ensures
        a == address_at(data@, start as int),
{
    let hi_wide = read_be(data, start, 4);
    let lo = read_be(data, start + 4, 16);
    proof {
        lemma_pow256_values();
    }
    Address { hi: hi_wide as u32, lo }
}

/// The 4-byte entry-point selector of a call.
pub open spec fn selector_at(data: Seq<u8>) -> int {
    be_bytes(data, 0, 4)
}

/// The 16-byte big-endian price the observed trader quoted.
pub open spec fn quoted_price(data: Seq<u8>) -> int {
    be_bytes(data, 44, 16)
}

/// The two token addresses of the traded pair: (base, quote).
pub open spec fn extracted_pair(data: Seq<u8>) -> (Address, Address) {
    (address_at(data, 4), address_at(data, 24))
}

pub open spec fn abs_diff(a: int, b: int) -> int {
    if a >= b {
        a - b
    } else {
        b - a
    }
}

/// Magnitude of the observed price skew against a venue's reference price.
pub open spec fn price_skew(v: Venue, data: Seq<u8>) -> int {
    abs_diff(quoted_price(data), v.reference_price as int)
}

/// Whether a pending transaction is a recognized swap against venue `v`.
pub open spec fn venue_hit(v: Venue, tx: PendingTransaction) -> bool {
    &&& tx.recipient == Some(v.address)
    &&& tx.calldata.len() == SWAP_CALLDATA_LEN
    &&& selector_at(tx.calldata@) == v.selector
}

/// Whether any configured venue recognizes the transaction.
pub open spec fn recognized(venues: Seq<Venue>, tx: PendingTransaction) -> bool {
    exists|i: int| 0 <= i < venues.len() && venue_hit(venues[i], tx)
}

/// Detects exploitable patterns in observed pending transactions and scores
/// the resulting signals. Holds the configured venue table; the caller
/// refreshes the reference prices in it.
pub struct ArbitrageAnalyzer {
    pub venues: Vec<Venue>,
}

/// Fee-market and timing context consulted at evaluation time, read fresh
/// from the chain for each analysis.
#[derive(Clone, Copy, Debug)]
pub struct MarketContext {
    /// Current network fee cap per gas unit.
    pub fee_cap: u128,
    /// Gas units the counter-transaction is expected to need.
    pub gas_units: u64,
    /// Assumed bound on the exploitable trade size.
    pub trade_cap: Amount,
    /// Ticks since the venue reference prices were last refreshed.
    pub staleness: u64,
    /// Current timestamp.
    pub now: u64,
    /// Conservative estimate of one block interval.
    pub block_interval: u64,
}

/// Confidence discount derived from reference-price staleness, in basis
/// points, saturating at `RISK_SCALE` (no confidence).
pub open spec fn risk_of(staleness: u64) -> int {
    if staleness * STALENESS_RISK_BPS >= RISK_SCALE {
        RISK_SCALE as int
    } else {
        staleness * STALENESS_RISK_BPS
    }
}

impl ArbitrageAnalyzer {
    /// The venue table is keyed by contract address: one entry per venue.
    pub open spec fn wf(self) -> bool {
        forall|i: int, j: int|
            0 <= i < j < self.venues.len() ==> self.venues[i].address != self.venues[j].address
    }

    /// Derives the arbitrage signal of one observed pending transaction.
    ///
    /// Pure in its inputs; a transaction that no configured venue
    /// recognizes — unknown recipient, unknown selector, malformed
    /// length — yields a negative signal with every optional field absent,
    /// never an error.
    pub fn analyze(&self, tx: &PendingTransaction) -> (r: TransactionAnalysis)
        requires
            self.wf(),
        ensures
            r.wf(),
            r.is_arbitrage == recognized(self.venues@, *tx),
            forall|i: int|
                0 <= i < self.venues@.len() && venue_hit(self.venues@[i], *tx) ==> {
                    &&& r.exchange_address == Some(self.venues@[i].address)
                    &&& r.token_pair == Some(extracted_pair(tx.calldata@))
                    &&& r.price_difference is Some
                    &&& r.price_difference->0.as_int() == price_skew(
                        self.venues@[i],
                        tx.calldata@,
                    )
                },
    {
        let none = TransactionAnalysis {
            is_arbitrage: false,
            exchange_address: None,
            token_pair: None,
            price_difference: None,
        };
        let recipient = match tx.recipient {
            Some(a) => a,
            None => {
                return none;
            },
        };
        if tx.calldata.len() != SWAP_CALLDATA_LEN {
            return none;
        }
        let sel_wide = read_be(&tx.calldata, 0, 4);
        proof {
            lemma_pow256_values();
        }
        let sel = sel_wide as u32;
        let mut i: usize = 0;
        while i < self.venues.len()
            invariant
                i <= self.venues.len(),
                self.wf(),
                tx.recipient == Some(recipient),
                tx.calldata.len() == SWAP_CALLDATA_LEN,
                sel == selector_at(tx.calldata@),
                forall|j: int| 0 <= j < i ==> !venue_hit(self.venues@[j], *tx),
            decreases self.venues.len() - i,
        {
            let v = self.venues[i];
            if v.address == recipient && v.selector == sel {
                let pair_a = read_address(&tx.calldata, 4);
                let pair_b = read_address(&tx.calldata, 24);
                let quoted = read_be(&tx.calldata, 44, 16);
                let skew: u128 = if quoted >= v.reference_price {
                    quoted - v.reference_price
                } else {
                    v.reference_price - quoted
                };
                let diff = Amount::from_u128(skew);
                proof {
                    assert(venue_hit(self.venues@[i as int], *tx));
                    assert forall|j: int|
                        0 <= j < self.venues@.len() && venue_hit(
                            self.venues@[j],
                            *tx,
                        ) implies j == i as int by {
                        if j < i as int {
                            assert(self.venues@[j].address != self.venues@[i as int].address);
                        } else if j > i as int {
                            assert(self.venues@[i as int].address != self.venues@[j].address);
                        }
                    }
                }
                return TransactionAnalysis {
                    is_arbitrage: true,
                    exchange_address: Some(v.address),
                    token_pair: Some((pair_a, pair_b)),
                    price_difference: Some(diff),
                };
            }
            i = i + 1;
        }
        none
    }

    /// Evaluates a signal against the current market context and emits at
    /// most one opportunity.
    ///
    /// A negative signal yields none. Otherwise the profit estimate is the
    /// observed price skew capped by the assumed trade size, the gas cost is
    /// priced at the current fee cap, and the risk discount grows with the
    /// staleness of the reference prices; the profitability invariant
    /// `profit * (1 - risk) > gas_cost` is applied as a hard filter, and the
    /// deadline is one block interval from now. The originating transaction
    /// moves into the opportunity: opportunities are single-use.
    pub fn find_opportunity(
        &self,
        analysis: &TransactionAnalysis,
        tx: PendingTransaction,
        market: &MarketContext,
    ) -> (r: Option<ArbitrageOpportunity>)
        requires
            analysis.wf(),
            market.now + market.block_interval <= u64::MAX,
        ensures
            !analysis.is_arbitrage ==> r is None,
            ({
                let profit = min_int(
                    analysis.price_difference->0.as_int(),
                    market.trade_cap.as_int(),
                );
                let gas = market.fee_cap * market.gas_units;
                let risk = risk_of(market.staleness);
                if analysis.is_arbitrage && profit_clears_bar(profit, gas, risk) {
                    &&& r is Some
                    &&& r->0.wf()
                    &&& r->0.target_tx == tx
                    &&& r->0.profit_estimate.as_int() == profit
                    &&& r->0.gas_cost.as_int() == gas
                    &&& r->0.risk_factor == risk
                    &&& r->0.deadline == market.now + market.block_interval
                } else {
                    r is None
                }
            }),
    {
        let skew = match &analysis.price_difference {
            Some(d) => *d,
            None => {
                return None;
            },
        };
        if !analysis.is_arbitrage {
            return None;
        }
        let profit_estimate = skew.min_of(&market.trade_cap);
        let gas_cost = gas_cost_of(market.fee_cap, market.gas_units);
        let risk_factor: u64 = if market.staleness >= RISK_SCALE / STALENESS_RISK_BPS {
            RISK_SCALE
        } else {
            market.staleness * STALENESS_RISK_BPS
        };
        if clears_profit_bar(&profit_estimate, &gas_cost, risk_factor) {
            Some(
                ArbitrageOpportunity {
                    target_tx: tx,
                    profit_estimate,
                    gas_cost,
                    risk_factor,
                    deadline: market.now + market.block_interval,
                },
            )
        } else {
            None
        }
    }
}

} // verus!
