//! Swap pricing: the constant-product formula with a proportional input fee,
//! slippage and liquidity guards, and the reserve update.

use vstd::prelude::*;
use crate::pool::{Address, AmmError, Pool};

verus! {

/// Basis points in a whole: a fee rate of this many basis points takes all of the input.
pub const BPS_DENOMINATOR: u64 = 10000;

/// Notification emitted when a swap is executed.
#[derive(Debug, Clone, Copy, PartialEq, Eq)]
pub struct SwapExecuted {
    pub user: Address,
    pub amount_in: u64,
    pub amount_out: u64,
    pub a_to_b: bool,
}

/// The fee taken from an input: `floor(amount_in * fee_rate / 10000)`.
pub open spec fn fee_of(amount_in: int, fee_rate: int) -> int {
    amount_in * fee_rate / (BPS_DENOMINATOR as int)
}

/// Constant-product output for `after_fee` units sold into a pool holding
/// `reserve_in` and `reserve_out`, rounded down. With nothing on either side of
/// the denominator (an empty input reserve and nothing sold) there is nothing
/// to pay out.
pub open spec fn amount_out_of(after_fee: int, reserve_in: int, reserve_out: int) -> int {
    if reserve_in + after_fee == 0 {
        0
    } else {
        after_fee * reserve_out / (reserve_in + after_fee)
    }
}

/// The output of selling `amount_in` into reserves `reserve_in`/`reserve_out`
/// at `fee_rate`, or `ArithmeticUnderflow` where the fee would exceed the input.
pub open spec fn quote_of(reserve_in: int, reserve_out: int, amount_in: int, fee_rate: int) -> Result<
    int,
    AmmError,
> {
    let fee = fee_of(amount_in, fee_rate);
    if fee > amount_in {
        Err(AmmError::ArithmeticUnderflow)
    } else {
        Ok(amount_out_of(amount_in - fee, reserve_in, reserve_out))
    }
}

/// The reserves sold into and bought from, by direction.
pub open spec fn reserves_in_out(pool: Pool, a_to_b: bool) -> (int, int) {
    if a_to_b {
        (pool.reserve_a as int, pool.reserve_b as int)
    } else {
        (pool.reserve_b as int, pool.reserve_a as int)
    }
}

/// What a swap returns: the output amount, or the first guard that fails.
pub open spec fn swap_outcome(pool: Pool, amount_in: u64, minimum_amount_out: u64, a_to_b: bool) -> Result<
    int,
    AmmError,
> {
    let (reserve_in, reserve_out) = reserves_in_out(pool, a_to_b);
    match quote_of(reserve_in, reserve_out, amount_in as int, pool.fee_rate as int) {
        Err(e) => Err(e),
        Ok(out) => if out < minimum_amount_out {
            Err(AmmError::SlippageExceeded)
        } else if out >= reserve_out {
            Err(AmmError::InsufficientLiquidity)
        } else if reserve_in + amount_in > u64::MAX {
            Err(AmmError::ArithmeticOverflow)
        } else {
            Ok(out)
        },
    }
}

/// The pool after a swap of `amount_in` for `amount_out`: the whole input,
/// fee included, joins the input reserve, the output leaves the other.
pub open spec fn pool_after_swap(pool: Pool, amount_in: int, amount_out: int, a_to_b: bool) -> Pool {
    if a_to_b {
        pool.with_reserves((pool.reserve_a + amount_in) as u64, (pool.reserve_b - amount_out) as u64)
    } else {
        pool.with_reserves((pool.reserve_a - amount_out) as u64, (pool.reserve_b + amount_in) as u64)
    }
}

proof fn lemma_fee_fits(amount_in: u64, fee_rate: u64)
    ensures
        0 <= amount_in * fee_rate <= u64::MAX * u64::MAX,
{
    assert(0 <= amount_in * fee_rate <= u64::MAX * u64::MAX) by (nonlinear_arith);
}

/// The fee owed on `amount_in` at `fee_rate` basis points, rounded down. It is
/// computed in 128 bits, so it never overflows, whatever the rate.
pub fn fee_amount(amount_in: u64, fee_rate: u64) -> (r: u128)
    ensures
        r == fee_of(amount_in as int, fee_rate as int),
{
    proof {
        lemma_fee_fits(amount_in, fee_rate);
    }
    (amount_in as u128) * (fee_rate as u128) / (BPS_DENOMINATOR as u128)
}

/// With a rate of at most 100%, the fee lies between nothing and the whole input.
pub proof fn lemma_fee_bounded(amount_in: u64, fee_rate: u64)
    requires
        fee_rate <= BPS_DENOMINATOR,
    ensures
        0 <= fee_of(amount_in as int, fee_rate as int) <= amount_in,
{
    let p = amount_in * fee_rate;
    assert(0 <= p <= amount_in * 10000) by (nonlinear_arith)
        requires
            fee_rate <= 10000,
            p == amount_in * fee_rate,
    ;
}

proof fn lemma_out_below_reserve(after_fee: int, reserve_in: int, reserve_out: int)
    requires
        after_fee >= 0,
        reserve_in >= 0,
        reserve_out >= 0,
    ensures
        0 <= amount_out_of(after_fee, reserve_in, reserve_out) <= reserve_out,
        amount_out_of(after_fee, reserve_in, reserve_out) * (reserve_in + after_fee) <= after_fee
            * reserve_out,
{
    if reserve_in + after_fee != 0 {
        let d = reserve_in + after_fee;
        let n = after_fee * reserve_out;
        let q = n / d;
        assert(0 <= n <= d * reserve_out) by (nonlinear_arith)
            requires
                n == after_fee * reserve_out,
                d == reserve_in + after_fee,
                after_fee >= 0,
                reserve_in >= 0,
                reserve_out >= 0,
        ;
        assert(q * d <= n && 0 <= q) by (nonlinear_arith)
            requires
                q == n / d,
                d > 0,
                n >= 0,
        ;
        assert(q <= reserve_out) by (nonlinear_arith)
            requires
                q * d <= n,
                n <= d * reserve_out,
                d > 0,
        ;
        assert(q * d == q * (reserve_in + after_fee));
    }
}

/// Steps one to four of a swap: the output bought by `amount_in` against
/// reserves `reserve_in`/`reserve_out` at `fee_rate` basis points, rounded down,
/// computed in 128 bits. Fails with `ArithmeticUnderflow` where the fee would
/// exceed the input.
pub fn quote_swap(reserve_in: u64, reserve_out: u64, amount_in: u64, fee_rate: u64) -> (r: Result<
    u64,
    AmmError,
>)
    ensures
        match quote_of(reserve_in as int, reserve_out as int, amount_in as int, fee_rate as int) {
            Ok(out) => r == Ok::<u64, AmmError>(out as u64) && out <= reserve_out,
            Err(e) => r == Err::<u64, AmmError>(e),
        },
{
    let fee = fee_amount(amount_in, fee_rate);
    if fee > amount_in as u128 {
        return Err(AmmError::ArithmeticUnderflow);
    }
    let after_fee = (amount_in as u128 - fee) as u64;
    proof {
        lemma_out_below_reserve(after_fee as int, reserve_in as int, reserve_out as int);
    }
    let denominator: u128 = reserve_in as u128 + after_fee as u128;
    if denominator == 0 {
        return Ok(0);
    }
    proof {
        assert(0 <= after_fee * reserve_out <= u64::MAX * u64::MAX) by (nonlinear_arith);
    }
    let out = (after_fee as u128) * (reserve_out as u128) / denominator;
    Ok(out as u64)
}

/// Sells `amount_in` of one asset for the other: asset A for B when `a_to_b`,
/// else B for A. On success the whole input joins the input reserve, the
/// output leaves the output reserve, and the swap notice is returned. Fails,
/// leaving the pool as it was, with `SlippageExceeded` when the output is below
/// `minimum_amount_out`, else with `InsufficientLiquidity` when it would take
/// all of the output reserve or more, else with `ArithmeticOverflow` when the
/// input reserve would leave the 64-bit range; and with `ArithmeticUnderflow`
/// before any of these when the fee exceeds the input.
pub fn swap(pool: &mut Pool, user: Address, amount_in: u64, minimum_amount_out: u64, a_to_b: bool) -> (r:
    Result<SwapExecuted, AmmError>)
    ensures
        match swap_outcome(*old(pool), amount_in, minimum_amount_out, a_to_b) {
            Ok(out) => r == Ok::<SwapExecuted, AmmError>(
                SwapExecuted { user, amount_in, amount_out: out as u64, a_to_b },
            ) && *final(pool) == pool_after_swap(*old(pool), amount_in as int, out, a_to_b),
            Err(e) => r == Err::<SwapExecuted, AmmError>(e) && *final(pool) == *old(pool),
        },
        ({
            let (reserve_in, reserve_out) = reserves_in_out(*old(pool), a_to_b);
            match quote_of(reserve_in, reserve_out, amount_in as int, old(pool).fee_rate as int) {
                Ok(out) => (out < minimum_amount_out ==> r == Err::<SwapExecuted, AmmError>(
                    AmmError::SlippageExceeded,
                ) && *final(pool) == *old(pool)) && (minimum_amount_out <= out && out >= reserve_out
                    ==> r == Err::<SwapExecuted, AmmError>(AmmError::InsufficientLiquidity)
                    && *final(pool) == *old(pool)),
                Err(_) => true,
            }
        }),
{
    let (reserve_in, reserve_out) = if a_to_b {
        (pool.reserve_a, pool.reserve_b)
    } else {
        (pool.reserve_b, pool.reserve_a)
    };
    let amount_out = match quote_swap(reserve_in, reserve_out, amount_in, pool.fee_rate) {
        Ok(out) => out,
        Err(e) => return Err(e),
    };
    if amount_out < minimum_amount_out {
        return Err(AmmError::SlippageExceeded);
    }
    if amount_out >= reserve_out {
        return Err(AmmError::InsufficientLiquidity);
    }
    if reserve_in > u64::MAX - amount_in {
        return Err(AmmError::ArithmeticOverflow);
    }
    if a_to_b {
        pool.reserve_a = reserve_in + amount_in;
        pool.reserve_b = reserve_out - amount_out;
    } else {
        pool.reserve_b = reserve_in + amount_in;
        pool.reserve_a = reserve_out - amount_out;
    }
    Ok(SwapExecuted { user, amount_in, amount_out, a_to_b })
}

/// A swap whose computed output falls below the caller's minimum fails with
/// `SlippageExceeded`, and `swap` then leaves the pool as it was.
pub proof fn lemma_slippage_refused(pool: Pool, amount_in: u64, minimum_amount_out: u64, a_to_b: bool)
    requires
        ({
            let (reserve_in, reserve_out) = reserves_in_out(pool, a_to_b);
            let q = quote_of(reserve_in, reserve_out, amount_in as int, pool.fee_rate as int);
            q is Ok && q->Ok_0 < minimum_amount_out
        }),
    ensures
        swap_outcome(pool, amount_in, minimum_amount_out, a_to_b) == Err::<int, AmmError>(
            AmmError::SlippageExceeded,
        ),
{
}

/// A swap whose computed output would take all of the output reserve or more
/// fails with `InsufficientLiquidity` (unless the slippage guard, checked first,
/// already refused it), and `swap` then leaves the pool as it was.
pub proof fn lemma_insufficient_liquidity_refused(
    pool: Pool,
    amount_in: u64,
    minimum_amount_out: u64,
    a_to_b: bool,
)
    requires
        ({
            let (reserve_in, reserve_out) = reserves_in_out(pool, a_to_b);
            let q = quote_of(reserve_in, reserve_out, amount_in as int, pool.fee_rate as int);
            q is Ok && q->Ok_0 >= reserve_out && q->Ok_0 >= minimum_amount_out
        }),
    ensures
        swap_outcome(pool, amount_in, minimum_amount_out, a_to_b) == Err::<int, AmmError>(
            AmmError::InsufficientLiquidity,
        ),
{
}

/// A successful swap never lowers the product of the reserves, whatever the
/// fee rate: rounding the output down always favours the pool, and the fee
/// stays in the input reserve.
pub proof fn lemma_swap_keeps_product(pool: Pool, amount_in: u64, minimum_amount_out: u64, a_to_b: bool)
    requires
        swap_outcome(pool, amount_in, minimum_amount_out, a_to_b) is Ok,
    ensures
        ({
            let after = pool_after_swap(
                pool,
                amount_in as int,
                swap_outcome(pool, amount_in, minimum_amount_out, a_to_b)->Ok_0,
                a_to_b,
            );
            after.reserve_a * after.reserve_b >= pool.reserve_a * pool.reserve_b
        }),
{
    let (reserve_in, reserve_out) = reserves_in_out(pool, a_to_b);
    let fee = fee_of(amount_in as int, pool.fee_rate as int);
    let after_fee = amount_in - fee;
    let out = swap_outcome(pool, amount_in, minimum_amount_out, a_to_b)->Ok_0;
    assert(0 <= fee) by (nonlinear_arith)
        requires
            fee == fee_of(amount_in as int, pool.fee_rate as int),
    ;
    lemma_out_below_reserve(after_fee, reserve_in, reserve_out);
    lemma_product_kept(reserve_in, reserve_out, amount_in as int, after_fee, out);
    let after = pool_after_swap(pool, amount_in as int, out, a_to_b);
    if a_to_b {
        assert(after.reserve_a == reserve_in + amount_in);
        assert(after.reserve_b == reserve_out - out);
    } else {
        assert(after.reserve_b == reserve_in + amount_in);
        assert(after.reserve_a == reserve_out - out);
        assert(after.reserve_a * after.reserve_b == after.reserve_b * after.reserve_a)
            by (nonlinear_arith);
        assert(pool.reserve_a * pool.reserve_b == pool.reserve_b * pool.reserve_a)
            by (nonlinear_arith);
    }
}

proof fn lemma_product_kept(reserve_in: int, reserve_out: int, amount_in: int, after_fee: int, out: int)
    requires
        0 <= reserve_in,
        0 <= out < reserve_out,
        0 <= after_fee <= amount_in,
        out * (reserve_in + after_fee) <= after_fee * reserve_out,
    ensures
        (reserve_in + amount_in) * (reserve_out - out) >= reserve_in * reserve_out,
{
    assert((reserve_in + amount_in) * (reserve_out - out) >= (reserve_in + after_fee) * (
    reserve_out - out)) by (nonlinear_arith)
        requires
            after_fee <= amount_in,
            out < reserve_out,
    ;
    assert((reserve_in + after_fee) * (reserve_out - out) == (reserve_in + after_fee)
        * reserve_out - out * (reserve_in + after_fee)) by (nonlinear_arith);
    assert((reserve_in + after_fee) * reserve_out == reserve_in * reserve_out + after_fee
        * reserve_out) by (nonlinear_arith);
}

} // verus!
