//! The pool record, its creation, and liquidity deposits.

use vstd::prelude::*;

verus! {

/// A 32-byte ledger identity (an account, an asset type, a signer).
pub type Address = [u8; 32];

/// Failures of the pool engine. Every one aborts the whole operation, and the
/// pool record is left exactly as it was.
#[derive(Debug, Clone, Copy, PartialEq, Eq, Structural)]
pub enum AmmError {
    /// The computed output is below the caller's stated minimum.
    SlippageExceeded,
    /// The output would drain all of the output reserve, or more.
    InsufficientLiquidity,
    /// A reserve would leave the 64-bit range.
    ArithmeticOverflow,
    /// The fee would exceed the input (only with a fee rate above 100%).
    ArithmeticUnderflow,
}

/// The persisted state of one pool.
#[derive(Debug, Clone, Copy, PartialEq, Eq)]
pub struct Pool {
    /// Identity that created the pool; informational only.
    pub authority: Address,
    pub mint_a: Address,
    pub mint_b: Address,
    /// Custodial accounts holding the pool's balances of asset A and B.
    pub vault_a: Address,
    pub vault_b: Address,
    /// Swap fee in basis points, fixed at creation.
    pub fee_rate: u64,
    pub reserve_a: u64,
    pub reserve_b: u64,
    /// Disambiguation nonce of the pool's derived address.
    pub bump: u8,
}

/// Notification emitted when a pool is created.
#[derive(Debug, Clone, Copy, PartialEq, Eq)]
pub struct PoolCreated {
    pub pool: Address,
    pub mint_a: Address,
    pub mint_b: Address,
    pub fee_rate: u64,
}

/// Notification emitted when liquidity is deposited.
#[derive(Debug, Clone, Copy, PartialEq, Eq)]
pub struct LiquidityAdded {
    pub user: Address,
    pub amount_a: u64,
    pub amount_b: u64,
}

impl Pool {
    /// The same pool with other reserves; identity and fee untouched.
    pub open spec fn with_reserves(self, reserve_a: u64, reserve_b: u64) -> Pool {
        Pool { reserve_a, reserve_b, ..self }
    }
}

/// Creates the record of a new pool with empty reserves and the given fee rate,
/// stored unmodified, together with its creation notice.
pub fn initialize_pool(
    pool_key: Address,
    authority: Address,
    mint_a: Address,
    mint_b: Address,
    vault_a: Address,
    vault_b: Address,
    fee_rate: u64,
    bump: u8,
) -> (r: (Pool, PoolCreated))
    ensures
        r.0 == (Pool {
            authority,
            mint_a,
            mint_b,
            vault_a,
            vault_b,
            fee_rate,
            reserve_a: 0,
            reserve_b: 0,
            bump,
        }),
        r.1 == (PoolCreated { pool: pool_key, mint_a, mint_b, fee_rate }),
{
    let pool = Pool {
        authority,
        mint_a,
        mint_b,
        vault_a,
        vault_b,
        fee_rate,
        reserve_a: 0,
        reserve_b: 0,
        bump,
    };
    let event = PoolCreated { pool: pool_key, mint_a, mint_b, fee_rate };
    (pool, event)
}

/// Deposits `amount_a` of asset A and `amount_b` of asset B, whatever their
/// ratio to the current reserves. Fails with `ArithmeticOverflow`, changing
/// nothing, when either reserve would leave the 64-bit range.
pub fn add_liquidity(pool: &mut Pool, user: Address, amount_a: u64, amount_b: u64) -> (r: Result<
    LiquidityAdded,
    AmmError,
>)
    ensures
        r is Ok <==> old(pool).reserve_a + amount_a <= u64::MAX && old(pool).reserve_b + amount_b
            <= u64::MAX,
        r is Ok ==> r == Ok::<LiquidityAdded, AmmError>(LiquidityAdded { user, amount_a, amount_b })
            && final(pool).reserve_a == old(pool).reserve_a + amount_a && final(pool).reserve_b
            == old(pool).reserve_b + amount_b && *final(pool) == old(pool).with_reserves(
            final(pool).reserve_a,
            final(pool).reserve_b,
        ),
        r is Err ==> r == Err::<LiquidityAdded, AmmError>(AmmError::ArithmeticOverflow)
            && *final(pool) == *old(pool),
{
    if pool.reserve_a > u64::MAX - amount_a || pool.reserve_b > u64::MAX - amount_b {
        return Err(AmmError::ArithmeticOverflow);
    }
    pool.reserve_a = pool.reserve_a + amount_a;
    pool.reserve_b = pool.reserve_b + amount_b;
    Ok(LiquidityAdded { user, amount_a, amount_b })
}

} // verus!
