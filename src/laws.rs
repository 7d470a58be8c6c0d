use vstd::prelude::*;
use crate::curve::{
    curve_out, effective_in, lemma_effective_in_bounds, quote_spec, reserve_after, CurveError,
    SwapResult,
};

verus! {

/// When the curve's division is exact, a trade never lowers the product of the reserves:
/// it grows strictly when a fee is charged, and stays equal when the fee is zero.
pub proof fn lemma_product_non_decreasing(
    r_in: u64,
    r_out: u64,
    fee_bps: u16,
    amount_in: u64,
    min_amount_out: u64,
    q: SwapResult,
)
    requires
        fee_bps <= 10000,
        quote_spec(r_in, r_out, fee_bps, amount_in, min_amount_out) == Ok::<
            SwapResult,
            CurveError,
        >(q),
        (r_in * r_out) % (r_in + effective_in(amount_in as int, fee_bps as int)) == 0,
    ensures
        fee_bps > 0 && amount_in > 0 ==> (r_in + q.deposit) * (r_out - q.withdraw) > r_in * r_out,
        fee_bps == 0 ==> (r_in + q.deposit) * (r_out - q.withdraw) == r_in * r_out,
        (r_in + q.deposit) * (r_out - q.withdraw) >= r_in * r_out,
{
    lemma_effective_in_bounds(amount_in as int, fee_bps as int);
    let e = effective_in(amount_in as int, fee_bps as int);
    let d = r_in + e;
    let k = r_in * r_out;
    let kept = reserve_after(r_in as int, r_out as int, amount_in as int, fee_bps as int);
    assert(kept == k / d);
    assert(kept * d == k) by (nonlinear_arith)
        requires
            d > 0,
            k % d == 0,
            kept == k / d,
    ;
    assert(r_out - q.withdraw == kept);
    assert(kept > 0);
    assert((r_in + amount_in) * kept == k + (amount_in - e) * kept) by (nonlinear_arith)
        requires
            kept * d == k,
            d == r_in + e,
    ;
    if fee_bps > 0 && amount_in > 0 {
        assert((amount_in - e) * kept > 0) by (nonlinear_arith)
            requires
                amount_in - e > 0,
                kept > 0,
        ;
    }
    if fee_bps == 0 {
        assert(amount_in - e == 0);
        assert((amount_in - e) * kept == 0) by (nonlinear_arith)
            requires
                amount_in - e == 0,
        ;
    }
    assert((amount_in - e) * kept >= 0) by (nonlinear_arith)
        requires
            amount_in - e >= 0,
            kept > 0,
    ;
}

/// When the first trade's division is exact, trading its output straight back pays out no
/// more than was first paid in.
pub proof fn lemma_round_trip_no_profit(
    r_in: u64,
    r_out: u64,
    fee_bps: u16,
    amount_in: u64,
    min_first: u64,
    min_back: u64,
    first: SwapResult,
    back: SwapResult,
)
    requires
        fee_bps <= 10000,
        quote_spec(r_in, r_out, fee_bps, amount_in, min_first) == Ok::<
            SwapResult,
            CurveError,
        >(first),
        (r_in * r_out) % (r_in + effective_in(amount_in as int, fee_bps as int)) == 0,
        quote_spec(
            (r_out - first.withdraw) as u64,
            (r_in + first.deposit) as u64,
            fee_bps,
            first.withdraw,
            min_back,
        ) == Ok::<SwapResult, CurveError>(back),
    ensures
        back.withdraw <= amount_in,
{
    lemma_effective_in_bounds(amount_in as int, fee_bps as int);
    let w = first.withdraw as int;
    lemma_effective_in_bounds(w, fee_bps as int);
    let e1 = effective_in(amount_in as int, fee_bps as int);
    let e2 = effective_in(w, fee_bps as int);
    let d = r_in + e1;
    let k = r_in * r_out;
    let q1 = k / d;
    assert(q1 * d == k) by (nonlinear_arith)
        requires
            d > 0,
            k % d == 0,
            q1 == k / d,
    ;
    assert(r_out - w == q1);
    let xb = r_in + amount_in;
    assert(xb * q1 >= d * q1) by (nonlinear_arith)
        requires
            xb >= d,
            q1 >= 0,
    ;
    // amount_in * q1 >= r_in * w >= r_in * e2
    assert(amount_in * q1 >= r_in * e2) by (nonlinear_arith)
        requires
            xb * q1 >= k,
            xb == r_in + amount_in,
            k == r_in * r_out,
            q1 == r_out - w,
            0 <= e2 <= w,
            r_in >= 0,
    ;
    assert(xb * q1 >= r_in * (q1 + e2)) by (nonlinear_arith)
        requires
            amount_in * q1 >= r_in * e2,
            xb == r_in + amount_in,
    ;
    assert(q1 * xb == xb * q1) by (nonlinear_arith);
    let m = q1 * xb / (q1 + e2);
    assert(m >= r_in) by (nonlinear_arith)
        requires
            q1 > 0,
            e2 >= 0,
            q1 * xb >= r_in * (q1 + e2),
            m == q1 * xb / (q1 + e2),
    {
        assert(r_in * (q1 + e2) / (q1 + e2) == r_in);
    }
    assert((r_out - first.withdraw) as u64 == q1);
    assert((r_in + first.deposit) as u64 == xb);
    assert(back.withdraw == xb - m);
}

/// With no fee, one unit paid into a balanced pool of `reserve >= 2` on each side pays out
/// exactly one unit.
pub proof fn lemma_unit_trade_balanced(reserve: u64)
    requires
        2 <= reserve < u64::MAX,
    ensures
        quote_spec(reserve, reserve, 0, 1, 0) == Ok::<SwapResult, CurveError>(
            SwapResult { deposit: 1, withdraw: 1, fee: 0 },
        ),
{
    let r = reserve as int;
    assert(effective_in(1, 0) == 1);
    assert(r * r == (r + 1) * (r - 1) + 1) by (nonlinear_arith);
    assert((r * r) / (r + 1) == r - 1) by (nonlinear_arith)
        requires
            r >= 2,
            r * r == (r + 1) * (r - 1) + 1,
    ;
    assert(curve_out(r, r, 1, 0) == 1);
}

} // verus!
