use vstd::prelude::*;

use crate::address::Address;

verus! {

/// Emitted when a pool is created.
#[derive(Clone, Copy, Debug, PartialEq, Eq, Structural)]
pub struct InitializePool {
    pub mint: Address,
    pub mint_amount: u64,
    pub open_time: u64,
    pub pool_creator: Address,
    pub amm_config: Address,
    pub off_set: u64,
}

/// Emitted when a pool's fees are collected, with the four amounts paid out.
#[derive(Clone, Copy, Debug, PartialEq, Eq, Structural)]
pub struct CollectFees {
    pub mint: Address,
    pub creator_mint_fees: u64,
    pub creator_usdc_fees: u64,
    pub protocol_mint_fees: u64,
    pub protocol_usdc_fees: u64,
}

/// Emitted when a swap executes.
#[derive(Clone, Copy, Debug, PartialEq, Eq, Structural)]
pub struct SwapPriceEvent {
    pub timestamp: u64,
    pub mint: Address,
    /// Q32.32 price of the listed asset in the reference asset.
    pub price: u128,
    pub liquidity_before: u64,
    pub liquidity_after: u64,
    /// The input amount, before any transfer fee.
    pub input_amount: u64,
    /// The output amount, before any transfer fee.
    pub output_amount: u64,
    /// Whether the listed asset was bought.
    pub buy: bool,
    pub user: Address,
}

} // verus!
