//! A constant-product pool that trades one listed asset against a fixed
//! reference asset over virtual reserves: swap quotes, fee splitting and
//! accrual, the status gate, and the pool and config records.

pub mod address;
pub mod config;
pub mod curve;
pub mod error;
pub mod events;
pub mod fees;
pub mod instructions;
pub mod pool;
pub mod token_account;

pub use address::Address;
pub use config::{update_amm_config, AmmConfig, AmmConfigUpdate};
pub use curve::{CurveCalculator, SwapResult, TradeDirection};
pub use error::ErrorCode;
pub use events::{CollectFees, InitializePool, SwapPriceEvent};
pub use fees::{split_trade_fee, trading_fee, FEE_RATE_DENOMINATOR_VALUE};
pub use instructions::{
    collect_fee, initialize, initialize_with_balance, is_supported_mint_owner,
    prepare_initialize, swap, update_pool_status, InitializeAccounts,
};
pub use pool::{CollectedFees, MintInfo, PoolState, PoolStatusBitFlag, PoolStatusBitIndex, Q32};
pub use token_account::vault_balance;
