//! Monetary and gas amounts in native-token base units.
//!
//! Amounts are 256-bit unsigned integers, held as four 64-bit limbs in
//! little-endian order, wide enough for native-unit denominations. The risk
//! factor is the only dimensionless quantity of the model; it is kept in basis
//! points so that the profitability comparison stays in exact integer
//! arithmetic.

use vstd::prelude::*;

verus! {

/// Full scale of the dimensionless risk factor, in basis points:
/// 0 means certain, `RISK_SCALE` means no confidence at all.
pub const RISK_SCALE: u64 = 10_000;

pub open spec fn b64() -> int {
    0x1_0000_0000_0000_0000int
}

pub open spec fn b128() -> int {
    0x1_0000_0000_0000_0000_0000_0000_0000_0000int
}

pub open spec fn b192() -> int {
    0x1_0000_0000_0000_0000_0000_0000_0000_0000_0000_0000_0000_0000int
}

pub open spec fn b256() -> int {
    0x1_0000_0000_0000_0000_0000_0000_0000_0000_0000_0000_0000_0000_0000_0000_0000_0000int
}

/// A 256-bit unsigned amount of native-token base units,
/// as four 64-bit limbs, least significant first.
#[derive(Clone, Copy, PartialEq, Eq, Structural, Debug)]
pub struct Amount {
    pub l0: u64,
    pub l1: u64,
    pub l2: u64,
    pub l3: u64,
}

impl Amount {
    /// The mathematical value an amount stands for.
    pub open spec fn as_int(self) -> int {
        self.l0 + self.l1 * b64() + self.l2 * b128() + self.l3 * b192()
    }

    pub fn zero() -> (r: Amount)
        ensures
            r.as_int() == 0,
    {
        Amount { l0: 0, l1: 0, l2: 0, l3: 0 }
    }

    pub fn from_u64(v: u64) -> (r: Amount)
        ensures
            r.as_int() == v,
    {
        Amount { l0: v, l1: 0, l2: 0, l3: 0 }
    }

    pub fn from_u128(v: u128) -> (r: Amount)
        ensures
            r.as_int() == v,
    {
        let lo: u64 = (v % 0x1_0000_0000_0000_0000u128) as u64;
        let hi: u64 = (v / 0x1_0000_0000_0000_0000u128) as u64;
        proof {
            vstd::arithmetic::div_mod::lemma_fundamental_div_mod(v as int, b64());
        }
        Amount { l0: lo, l1: hi, l2: 0, l3: 0 }
    }

    /// Strict comparison of the values two amounts stand for.
    pub fn lt(&self, other: &Amount) -> (r: bool)
        ensures
            r == (self.as_int() < other.as_int()),
    {
        if self.l3 != other.l3 {
            self.l3 < other.l3
        } else if self.l2 != other.l2 {
            self.l2 < other.l2
        } else if self.l1 != other.l1 {
            self.l1 < other.l1
        } else {
            self.l0 < other.l0
        }
    }

    /// The smaller of two amounts.
    pub fn min_of(&self, other: &Amount) -> (r: Amount)
        ensures
            r.as_int() == min_int(self.as_int(), other.as_int()),
    {
        if self.lt(other) {
            *self
        } else {
            *other
        }
    }

    /// Product of an amount with a small scalar, kept exactly in five limbs.
    pub fn mul_u64(&self, k: u64) -> (r: Wide)
        ensures
            r.as_int() == self.as_int() * k,
    {
        let (r0, c0) = mac(self.l0, k, 0);
        let (r1, c1) = mac(self.l1, k, c0);
        let (r2, c2) = mac(self.l2, k, c1);
        let (r3, c3) = mac(self.l3, k, c2);
        let w = Wide { w0: r0, w1: r1, w2: r2, w3: r3, w4: c3 };
        proof {
            lemma_scalar_mul_distributes(
                self.l0 as int,
                self.l1 as int,
                self.l2 as int,
                self.l3 as int,
                b64(),
                b128(),
                b192(),
                k as int,
            );
        }
        w
    }
}

pub open spec fn min_int(a: int, b: int) -> int {
    if a <= b {
        a
    } else {
        b
    }
}

/// A 320-bit product of a 256-bit amount and a 64-bit scalar,
/// as five 64-bit limbs, least significant first.
#[derive(Clone, Copy, PartialEq, Eq, Structural, Debug)]
pub struct Wide {
    pub w0: u64,
    pub w1: u64,
    pub w2: u64,
    pub w3: u64,
    pub w4: u64,
}

impl Wide {
    pub open spec fn as_int(self) -> int {
        self.w0 + self.w1 * b64() + self.w2 * b128() + self.w3 * b192() + self.w4 * b256()
    }

    /// Strict comparison of the values two wide products stand for.
    pub fn gt(&self, other: &Wide) -> (r: bool)
        ensures
            r == (self.as_int() > other.as_int()),
    {
        if self.w4 != other.w4 {
            self.w4 > other.w4
        } else if self.w3 != other.w3 {
            self.w3 > other.w3
        } else if self.w2 != other.w2 {
            self.w2 > other.w2
        } else if self.w1 != other.w1 {
            self.w1 > other.w1
        } else {
            self.w0 > other.w0
        }
    }
}

/// Multiply-accumulate over one limb: `l * k + c`, split into a low limb
/// and a carry.
fn mac(l: u64, k: u64, c: u64) -> (r: (u64, u64))
    ensures
        r.0 + r.1 * b64() == l * k + c,
{
    proof {
        assert((l as int) * (k as int) <= 0xffff_ffff_ffff_ffffint * 0xffff_ffff_ffff_ffffint)
            by (nonlinear_arith)
            requires
                l <= 0xffff_ffff_ffff_ffffu64,
                k <= 0xffff_ffff_ffff_ffffu64,
        ;
    }
    let p: u128 = (l as u128) * (k as u128) + (c as u128);
    let lo: u64 = (p % 0x1_0000_0000_0000_0000u128) as u64;
    let hi: u64 = (p / 0x1_0000_0000_0000_0000u128) as u64;
    proof {
        vstd::arithmetic::div_mod::lemma_fundamental_div_mod(p as int, b64());
    }
    (lo, hi)
}

/// Ring identity behind the limb-wise scalar multiplication.
proof fn lemma_scalar_mul_distributes(a: int, b: int, c: int, d: int, x: int, y: int, z: int, k: int)
    ensures
        (a + b * x + c * y + d * z) * k == a * k + (b * k) * x + (c * k) * y + (d * k) * z,
{
    broadcast use vstd::arithmetic::mul::group_mul_properties;

}

/// The hard profitability filter: a risk-discounted profit estimate must
/// strictly exceed the gas cost. The risk discount is applied in basis
/// points so that the comparison is exact integer arithmetic.
pub open spec fn profit_clears_bar(profit: int, gas: int, risk_bps: int) -> bool {
    profit * (RISK_SCALE - risk_bps) > gas * RISK_SCALE
}

/// Decides `profit * (1 - risk) > gas` exactly, with the risk expressed in
/// basis points of `RISK_SCALE`.
pub fn clears_profit_bar(profit: &Amount, gas: &Amount, risk_bps: u64) -> (r: bool)
    requires
        risk_bps <= RISK_SCALE,
    ensures
        r == profit_clears_bar(profit.as_int(), gas.as_int(), risk_bps as int),
{
    let discounted = profit.mul_u64(RISK_SCALE - risk_bps);
    let bar = gas.mul_u64(RISK_SCALE);
    discounted.gt(&bar)
}

/// Cost of executing at a fee cap for an estimated number of gas units.
pub fn gas_cost_of(fee_cap: u128, gas_units: u64) -> (r: Amount)
    ensures
        r.as_int() == fee_cap * gas_units,
{
    let f = Amount::from_u128(fee_cap);
    let w = f.mul_u64(gas_units);
    proof {
        vstd::arithmetic::mul::lemma_mul_upper_bound(
            fee_cap as int,
            b128() - 1,
            gas_units as int,
            b64() - 1,
        );
        assert(w.as_int() <= (b128() - 1) * (b64() - 1));
        assert((b128() - 1) * (b64() - 1) < b256()) by (nonlinear_arith);
        assert(w.w4 * b256() <= w.as_int());
        assert(w.w4 == 0);
    }
    Amount { l0: w.w0, l1: w.w1, l2: w.w2, l3: w.w3 }
}

} // verus!
