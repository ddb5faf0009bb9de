//! A constant-product market maker over two assets: the pool record, its
//! creation, liquidity deposits and fee-bearing swaps, with the guards that
//! keep the reserves consistent; and the checks of a transfer hook that vets
//! token transfers.

pub mod pool;
pub mod swap;
pub mod hook;

pub use pool::{
    add_liquidity, initialize_pool, Address, AmmError, LiquidityAdded, Pool, PoolCreated,
};
pub use swap::{
    fee_amount, lemma_fee_bounded, lemma_insufficient_liquidity_refused, lemma_slippage_refused,
    lemma_swap_keeps_product, quote_swap, swap, SwapExecuted,
    BPS_DENOMINATOR,
};
pub use hook::{
    dispatch_hook_instruction, fallback, transfer_hook, FallbackError, HookInstruction,
    TransferHookError, TransferValidated, EXECUTE_DISCRIMINATOR,
    INITIALIZE_LIST_DISCRIMINATOR, UPDATE_LIST_DISCRIMINATOR,
};
