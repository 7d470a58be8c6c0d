use vstd::prelude::*;

verus! {

/// One whole in basis points.
pub const BPS: u16 = 10000;

/// Why the curve refuses to quote a trade.
#[derive(Debug, Clone, Copy, PartialEq, Eq, Structural)]
pub enum CurveError {
    /// One of the two reserves is zero.
    EmptyPool,
    /// The output falls below the caller's floor.
    SlippageExceeded,
    /// A reserve would leave the range of `u64`, or the pool would be drained.
    Overflow,
}

/// Which side of the pair the trader pays in.
#[derive(Debug, Clone, Copy, PartialEq, Eq, Structural)]
pub enum LiquidityPair {
    X,
    Y,
}

/// What a quoted trade moves: `deposit` in, `withdraw` out, `fee` kept back from the input.
#[derive(Debug, Clone, Copy, PartialEq, Eq, Structural)]
pub struct SwapResult {
    pub deposit: u64,
    pub withdraw: u64,
    pub fee: u64,
}

/// The input left after the fee, truncated toward zero.
pub open spec fn effective_in(amount: int, fee_bps: int) -> int {
    amount * (10000 - fee_bps) / 10000
}

/// The reserve that stays on the output side: `k / (reserve_in + effective_in)`.
pub open spec fn reserve_after(r_in: int, r_out: int, amount: int, fee_bps: int) -> int {
    (r_in * r_out) / (r_in + effective_in(amount, fee_bps))
}

/// What the pool pays out for `amount` paid in.
pub open spec fn curve_out(r_in: int, r_out: int, amount: int, fee_bps: int) -> int {
    r_out - reserve_after(r_in, r_out, amount, fee_bps)
}

/// The outcome of a quote on reserves `(r_in, r_out)`.
pub open spec fn quote_spec(r_in: u64, r_out: u64, fee_bps: u16, amount: u64, min_out: u64) -> Result<
    SwapResult,
    CurveError,
> {
    if r_in == 0 || r_out == 0 {
        Err(CurveError::EmptyPool)
    } else if r_in + amount > u64::MAX {
        Err(CurveError::Overflow)
    } else if curve_out(r_in as int, r_out as int, amount as int, fee_bps as int) >= r_out {
        Err(CurveError::Overflow)
    } else if curve_out(r_in as int, r_out as int, amount as int, fee_bps as int) < min_out {
        Err(CurveError::SlippageExceeded)
    } else {
        Ok(
            SwapResult {
                deposit: amount,
                withdraw: curve_out(r_in as int, r_out as int, amount as int, fee_bps as int) as u64,
                fee: (amount - effective_in(amount as int, fee_bps as int)) as u64,
            },
        )
    }
}

/// The fee never makes the effective input negative or larger than the input; it removes
/// nothing when zero and something when positive.
pub proof fn lemma_effective_in_bounds(amount: int, fee_bps: int)
    requires
        0 <= amount,
        0 <= fee_bps <= 10000,
    ensures
        0 <= effective_in(amount, fee_bps) <= amount,
        fee_bps == 0 ==> effective_in(amount, fee_bps) == amount,
        fee_bps > 0 && amount > 0 ==> effective_in(amount, fee_bps) < amount,
{
    assert(0 <= amount * (10000 - fee_bps) <= amount * 10000) by (nonlinear_arith)
        requires
            0 <= amount,
            0 <= fee_bps <= 10000,
    ;
    assert(amount * (10000 - fee_bps) / 10000 <= amount * 10000 / 10000) by (nonlinear_arith)
        requires
            0 <= amount * (10000 - fee_bps) <= amount * 10000,
    ;
    assert(amount * 10000 / 10000 == amount) by (nonlinear_arith);
    if fee_bps > 0 && amount > 0 {
        assert(amount * (10000 - fee_bps) < amount * 10000) by (nonlinear_arith)
            requires
                0 < amount,
                0 < fee_bps,
        ;
        assert(amount * (10000 - fee_bps) / 10000 < amount) by (nonlinear_arith)
            requires
                0 <= amount * (10000 - fee_bps) < amount * 10000,
        ;
    }
}

proof fn lemma_reserve_after_bounds(r_in: int, r_out: int, amount: int, fee_bps: int)
    requires
        0 < r_in,
        0 <= r_out,
        0 <= amount,
        0 <= fee_bps <= 10000,
    ensures
        0 <= reserve_after(r_in, r_out, amount, fee_bps) <= r_out,
{
    lemma_effective_in_bounds(amount, fee_bps);
    let e = effective_in(amount, fee_bps);
    assert(0 <= (r_in * r_out) / (r_in + e) <= r_out) by (nonlinear_arith)
        requires
            0 < r_in,
            0 <= r_out,
            0 <= e,
    {
        assert(r_in * r_out <= (r_in + e) * r_out);
        assert((r_in + e) * r_out / (r_in + e) == r_out);
    }
}

/// The curve built afresh for each trade from the two reserves, the share supply and the fee.
#[derive(Debug, Clone, Copy, PartialEq, Eq, Structural)]
pub struct ConstantProduct {
    pub x: u64,
    pub y: u64,
    pub l: u64,
    pub fee: u16,
}

impl ConstantProduct {
    pub open spec fn wf(&self) -> bool {
        self.fee <= 10000
    }

    /// The curve over reserves `x`, `y`, share supply `l` and fee `fee` in basis points.
    pub fn init(x: u64, y: u64, l: u64, fee: u16) -> (r: Self)
        requires
            fee <= 10000,
        ensures
            r == (ConstantProduct { x, y, l, fee }),
            r.wf(),
    {
        ConstantProduct { x, y, l, fee }
    }

    pub open spec fn reserves(&self, p: LiquidityPair) -> (u64, u64) {
        match p {
            LiquidityPair::X => (self.x, self.y),
            LiquidityPair::Y => (self.y, self.x),
        }
    }

    /// Quotes paying `amount_in` on side `p` with an output floor of `min_amount_out`.
    pub fn swap(&self, p: LiquidityPair, amount_in: u64, min_amount_out: u64) -> (r: Result<
        SwapResult,
        CurveError,
    >)
        requires
            self.wf(),
        ensures
            r == quote_spec(self.reserves(p).0, self.reserves(p).1, self.fee, amount_in, min_amount_out),
    {
        let (r_in, r_out) = match p {
            LiquidityPair::X => (self.x, self.y),
            LiquidityPair::Y => (self.y, self.x),
        };
        quote(r_in, r_out, self.fee, amount_in, min_amount_out)
    }
}

/// Quotes paying `amount` into reserve `r_in` against reserve `r_out`.
pub fn quote(r_in: u64, r_out: u64, fee_bps: u16, amount: u64, min_out: u64) -> (r: Result<
    SwapResult,
    CurveError,
>)
    requires
        fee_bps <= 10000,
    ensures
        r == quote_spec(r_in, r_out, fee_bps, amount, min_out),
{
    if r_in == 0 || r_out == 0 {
        return Err(CurveError::EmptyPool);
    }
    if amount > u64::MAX - r_in {
        return Err(CurveError::Overflow);
    }
    proof {
        lemma_effective_in_bounds(amount as int, fee_bps as int);
        lemma_reserve_after_bounds(r_in as int, r_out as int, amount as int, fee_bps as int);
        assert((amount as int) * (10000 - fee_bps) <= (amount as int) * 10000) by (nonlinear_arith)
            requires
                0 <= amount,
                fee_bps <= 10000,
        ;
        assert((r_in as int) * (r_out as int) <= (u64::MAX as int) * (u64::MAX as int))
            by (nonlinear_arith)
            requires
                r_in <= u64::MAX,
                r_out <= u64::MAX,
        ;
    }
    let scaled: u128 = (amount as u128) * ((BPS - fee_bps) as u128);
    let eff: u128 = scaled / (BPS as u128);
    let k: u128 = (r_in as u128) * (r_out as u128);
    let kept: u128 = k / ((r_in as u128) + eff);
    let out: u128 = (r_out as u128) - kept;
    if out >= r_out as u128 {
        return Err(CurveError::Overflow);
    }
    if out < min_out as u128 {
        return Err(CurveError::SlippageExceeded);
    }
    Ok(SwapResult { deposit: amount, withdraw: out as u64, fee: ((amount as u128) - eff) as u64 })
}

} // verus!
