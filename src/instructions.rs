use vstd::prelude::*;

use crate::address::Address;
use crate::config::AmmConfig;
use crate::curve::{
    div_ceil, lemma_ceil_input_keeps_product, lemma_floor_output_keeps_product,
    lemma_gross_up_covers, supply_is_valid, swap_outcome, CurveCalculator, SwapResult,
    TradeDirection,
};
use crate::fees::fee_floor;
use crate::error::ErrorCode;
use crate::events::{CollectFees, InitializePool};
use crate::pool::{bit_is_clear, MintInfo, PoolState, PoolStatusBitIndex};
use crate::token_account::{token_account_amount, token_account_unpacks, vault_balance};

verus! {

/// The facts about the accounts of a pool-creation request that the
/// creation logic reads.
#[derive(Clone, Copy, Debug, PartialEq, Eq, Structural)]
pub struct InitializeAccounts {
    pub creator: Address,
    pub amm_config: Address,
    pub mint: MintInfo,
    /// Whether the listed asset's mint is of a supported kind.
    pub mint_supported: bool,
    /// Whether the reference asset's mint is of a supported kind.
    pub usdc_supported: bool,
    pub token_mint_vault: Address,
    pub token_usdc_vault: Address,
    pub auth_bump: u8,
}

/// Whether a mint owned by `owner` is supported: it must belong to one of
/// the two token programs that transfers can be routed through.
pub fn is_supported_mint_owner(owner: &Address, token_program: &Address, token_2022_program: &Address) -> (r: bool)
    ensures
        r == (*owner == *token_program || *owner == *token_2022_program),
{
    *owner == *token_program || *owner == *token_2022_program
}

/// The opening time actually used: never earlier than one second after now.
pub open spec fn spec_open_time(requested: u64, block_timestamp: u64) -> u64 {
    if requested <= block_timestamp {
        (block_timestamp + 1) as u64
    } else {
        requested
    }
}

/// The checks made before anything is created, and the opening time they
/// settle on.
pub open spec fn spec_prepare_initialize(
    config: AmmConfig,
    accounts: InitializeAccounts,
    open_time: u64,
    block_timestamp: u64,
) -> Result<u64, ErrorCode> {
    if !(accounts.mint_supported && accounts.usdc_supported) {
        Err(ErrorCode::NotSupportMint)
    } else if config.disable_create_pool {
        Err(ErrorCode::NotApproved)
    } else if open_time <= block_timestamp && block_timestamp == u64::MAX {
        Err(ErrorCode::ArithmeticError)
    } else {
        Ok(spec_open_time(open_time, block_timestamp))
    }
}

/// The pool a successful creation writes.
pub open spec fn spec_initialized_pool(
    pool: PoolState,
    accounts: InitializeAccounts,
    offset: u64,
    open_time: u64,
    epoch: u64,
) -> PoolState {
    PoolState {
        amm_config: accounts.amm_config,
        pool_creator: accounts.creator,
        token_mint_vault: accounts.token_mint_vault,
        token_usdc_vault: accounts.token_usdc_vault,
        mint: accounts.mint.key,
        mint_token_program: accounts.mint.owner,
        observation_key: Address::spec_zero(),
        auth_bump: accounts.auth_bump,
        mint_decimals: accounts.mint.decimals,
        protocol_fees_token_mint: 0,
        protocol_fees_token_usdc: 0,
        creator_fees_token_mint: 0,
        creator_fees_token_usdc: 0,
        open_time,
        recent_epoch: epoch,
        off_set: offset,
        ..pool
    }
}

/// The event a successful creation emits.
pub open spec fn spec_initialize_event(
    accounts: InitializeAccounts,
    mint_amount: u64,
    offset: u64,
    open_time: u64,
) -> InitializePool {
    InitializePool {
        mint: accounts.mint.key,
        mint_amount,
        open_time,
        pool_creator: accounts.creator,
        amm_config: accounts.amm_config,
        off_set: offset,
    }
}

/// The outcome of creating a pool whose listed-asset vault holds
/// `vault_amount` after the seed deposit: the pool written and the event
/// emitted, or the error that refuses the creation.
pub open spec fn spec_initialize_outcome(
    pool: PoolState,
    config: AmmConfig,
    accounts: InitializeAccounts,
    mint_amount: u64,
    offset: u64,
    open_time: u64,
    block_timestamp: u64,
    epoch: u64,
    vault_amount: u64,
) -> Result<(PoolState, InitializePool), ErrorCode> {
    match spec_prepare_initialize(config, accounts, open_time, block_timestamp) {
        Err(e) => Err(e),
        Ok(t) => if !supply_is_valid(vault_amount, offset) {
            Err(ErrorCode::InvalidInput)
        } else {
            Ok(
                (
                    spec_initialized_pool(pool, accounts, offset, t, epoch),
                    spec_initialize_event(accounts, mint_amount, offset, t),
                ),
            )
        },
    }
}

/// A requested opening time that is not in the future is moved to one
/// second after now, and the creation goes ahead with it.
pub proof fn lemma_past_open_time_advances(
    pool: PoolState,
    config: AmmConfig,
    accounts: InitializeAccounts,
    mint_amount: u64,
    offset: u64,
    open_time: u64,
    block_timestamp: u64,
    epoch: u64,
    vault_amount: u64,
)
    requires
        accounts.mint_supported,
        accounts.usdc_supported,
        !config.disable_create_pool,
        supply_is_valid(vault_amount, offset),
        open_time <= block_timestamp < u64::MAX,
    ensures
        ({
            let outcome = spec_initialize_outcome(
                pool,
                config,
                accounts,
                mint_amount,
                offset,
                open_time,
                block_timestamp,
                epoch,
                vault_amount,
            );
            &&& outcome is Ok
            &&& outcome->Ok_0.0.open_time == block_timestamp + 1
            &&& outcome->Ok_0.1.open_time == block_timestamp + 1
        }),
{
}

/// A seed deposit that leaves the listed-asset vault empty never creates a
/// pool, whatever the offset.
pub proof fn lemma_zero_deposit_refused(
    pool: PoolState,
    config: AmmConfig,
    accounts: InitializeAccounts,
    mint_amount: u64,
    offset: u64,
    open_time: u64,
    block_timestamp: u64,
    epoch: u64,
)
    requires
        accounts.mint_supported,
        accounts.usdc_supported,
        !config.disable_create_pool,
        open_time > block_timestamp || block_timestamp < u64::MAX,
    ensures
        spec_initialize_outcome(
            pool,
            config,
            accounts,
            mint_amount,
            offset,
            open_time,
            block_timestamp,
            epoch,
            0,
        ) == Err::<(PoolState, InitializePool), ErrorCode>(ErrorCode::InvalidInput),
{
}

/// Checks that a pool may be created and settles its opening time: both
/// mints must be supported (`NotSupportMint`), the config must allow
/// creation (`NotApproved`), and a requested time that is not in the future
/// moves to one second after now.
pub fn prepare_initialize(
    config: &AmmConfig,
    accounts: &InitializeAccounts,
    open_time: u64,
    block_timestamp: u64,
) -> (r: Result<u64, ErrorCode>)
    ensures
        r == spec_prepare_initialize(*config, *accounts, open_time, block_timestamp),
{
    if !(accounts.mint_supported && accounts.usdc_supported) {
        return Err(ErrorCode::NotSupportMint);
    }
    if config.disable_create_pool {
        return Err(ErrorCode::NotApproved);
    }
    let mut open_time = open_time;
    if open_time <= block_timestamp {
        if block_timestamp == u64::MAX {
            return Err(ErrorCode::ArithmeticError);
        }
        open_time = block_timestamp + 1;
    }
    Ok(open_time)
}

/// Creates a pool once its seed deposit has landed in the listed-asset
/// vault, whose balance is then `vault_amount`. On any error the pool is
/// left as it was.
pub fn initialize_with_balance(
    pool: &mut PoolState,
    config: &AmmConfig,
    accounts: &InitializeAccounts,
    mint_amount: u64,
    offset: u64,
    open_time: u64,
    block_timestamp: u64,
    epoch: u64,
    vault_amount: u64,
) -> (r: Result<InitializePool, ErrorCode>)
    ensures
        match spec_initialize_outcome(
            *old(pool),
            *config,
            *accounts,
            mint_amount,
            offset,
            open_time,
            block_timestamp,
            epoch,
            vault_amount,
        ) {
            Ok((p, ev)) => r == Ok::<InitializePool, ErrorCode>(ev) && *final(pool) == p,
            Err(e) => r == Err::<InitializePool, ErrorCode>(e) && *final(pool) == *old(pool),
        },
{
    let open_time = match prepare_initialize(config, accounts, open_time, block_timestamp) {
        Ok(t) => t,
        Err(e) => {
            return Err(e);
        },
    };
    match CurveCalculator::validate_supply(vault_amount, offset) {
        Ok(()) => {},
        Err(e) => {
            return Err(e);
        },
    }
    pool.initialize(
        offset,
        accounts.auth_bump,
        open_time,
        accounts.creator,
        accounts.amm_config,
        accounts.token_mint_vault,
        accounts.token_usdc_vault,
        &accounts.mint,
        Address::zero(),
        epoch,
    );
    Ok(
        InitializePool {
            mint: accounts.mint.key,
            mint_amount,
            open_time,
            pool_creator: accounts.creator,
            amm_config: accounts.amm_config,
            off_set: offset,
        },
    )
}

/// Creates a pool, reading the seed deposit back from the raw data of the
/// listed-asset vault (`vault_data`), so that a transfer fee taken on the
/// way in is accounted for. On any error the pool is left as it was.
pub fn initialize(
    pool: &mut PoolState,
    config: &AmmConfig,
    accounts: &InitializeAccounts,
    mint_amount: u64,
    offset: u64,
    open_time: u64,
    block_timestamp: u64,
    epoch: u64,
    vault_data: &[u8],
) -> (r: Result<InitializePool, ErrorCode>)
    ensures
        match spec_prepare_initialize(*config, *accounts, open_time, block_timestamp) {
            Err(e) => r == Err::<InitializePool, ErrorCode>(e) && *final(pool) == *old(pool),
            Ok(_) => if !token_account_unpacks(vault_data@) {
                &&& r == Err::<InitializePool, ErrorCode>(ErrorCode::InvalidAccountData)
                &&& *final(pool) == *old(pool)
            } else {
                match spec_initialize_outcome(
                    *old(pool),
                    *config,
                    *accounts,
                    mint_amount,
                    offset,
                    open_time,
                    block_timestamp,
                    epoch,
                    token_account_amount(vault_data@) as u64,
                ) {
                    Ok((p, ev)) => r == Ok::<InitializePool, ErrorCode>(ev) && *final(pool) == p,
                    Err(e) => r == Err::<InitializePool, ErrorCode>(e) && *final(pool)
                        == *old(pool),
                }
            },
        },
{
    match prepare_initialize(config, accounts, open_time, block_timestamp) {
        Ok(_) => {},
        Err(e) => {
            return Err(e);
        },
    }
    let vault_amount = match vault_balance(vault_data) {
        Ok(a) => a,
        Err(e) => {
            return Err(e);
        },
    };
    initialize_with_balance(
        pool,
        config,
        accounts,
        mint_amount,
        offset,
        open_time,
        block_timestamp,
        epoch,
        vault_amount,
    )
}

/// Pays out a pool's accumulated fees: only the config's protocol fee
/// collector or the pool's creator may ask (`InvalidOwner` otherwise, with
/// the pool untouched). The four accumulators are handed out in the event
/// and reset to zero.
pub fn collect_fee(pool: &mut PoolState, config: &AmmConfig, payer: Address) -> (r: Result<
    CollectFees,
    ErrorCode,
>)
    ensures
        payer != config.protocol_fee_collector && payer != old(pool).pool_creator ==> r
            == Err::<CollectFees, ErrorCode>(ErrorCode::InvalidOwner) && *final(pool) == *old(
            pool,
        ),
        payer == config.protocol_fee_collector || payer == old(pool).pool_creator ==> r
            == Ok::<CollectFees, ErrorCode>(
            CollectFees {
                mint: old(pool).mint,
                creator_mint_fees: old(pool).creator_fees_token_mint,
                creator_usdc_fees: old(pool).creator_fees_token_usdc,
                protocol_mint_fees: old(pool).protocol_fees_token_mint,
                protocol_usdc_fees: old(pool).protocol_fees_token_usdc,
            },
        ) && *final(pool) == old(pool).spec_drained(),
{
    if payer != config.protocol_fee_collector && payer != pool.pool_creator {
        return Err(ErrorCode::InvalidOwner);
    }
    let fees = pool.collect_and_reset();
    Ok(
        CollectFees {
            mint: pool.mint,
            creator_mint_fees: fees.creator_mint,
            creator_usdc_fees: fees.creator_usdc,
            protocol_mint_fees: fees.protocol_mint,
            protocol_usdc_fees: fees.protocol_usdc,
        },
    )
}

/// Whether the vault paid into can take `source_amount` and still be read
/// back: the listed vault's balance must fit in 64 bits, and on the
/// reference side so must the balance plus the offset.
pub open spec fn input_side_fits(
    pool: PoolState,
    direction: TradeDirection,
    mint_vault: u64,
    usdc_vault: u64,
    source_amount: u64,
) -> bool {
    match direction {
        TradeDirection::MintToUsdc => mint_vault + source_amount <= u64::MAX,
        TradeDirection::UsdcToMint => usdc_vault + source_amount + pool.off_set <= u64::MAX,
    }
}

/// The outcome of a swap request: the trade and the pool with its fee
/// credited.
pub open spec fn spec_swap(
    pool: PoolState,
    config: AmmConfig,
    direction: TradeDirection,
    amount_specified: u64,
    is_exact_in: bool,
    mint_vault: u64,
    usdc_vault: u64,
    block_timestamp: u64,
) -> Result<(PoolState, SwapResult), ErrorCode> {
    if !bit_is_clear(pool.status, 2) || block_timestamp < pool.open_time {
        Err(ErrorCode::NotApproved)
    } else {
        match pool.spec_vault_amount_without_fee(mint_vault, usdc_vault) {
            Err(e) => Err(e),
            Ok((mint_reserve, usdc_reserve)) => match swap_outcome(
                direction,
                amount_specified,
                is_exact_in,
                mint_reserve,
                usdc_reserve,
                config.trade_fee_rate,
            ) {
                Err(e) => Err(e),
                Ok(res) => if !input_side_fits(pool, direction, mint_vault, usdc_vault, res.source_amount) {
                    Err(ErrorCode::ArithmeticError)
                } else { match pool.spec_credit_trade_fee(
                    direction,
                    res.trade_fee,
                    config.protocol_fee_rate,
                ) {
                    Err(e) => Err(e),
                    Ok(p) => Ok((p, res)),
                } },
            },
        }
    }
}

/// A swap leaves the pool sound: the product of the virtual reserves does
/// not fall, and once the vaults have taken the input and paid the output
/// (where the vault paid from holds the output) the fees owed are still
/// covered by the vaults, the virtual
/// reserve paid into has grown by exactly the input net of fee, and the
/// other has fallen by exactly the output.
pub proof fn lemma_swap_keeps_reserves_sound(
    pool: PoolState,
    config: AmmConfig,
    direction: TradeDirection,
    amount_specified: u64,
    is_exact_in: bool,
    mint_vault: u64,
    usdc_vault: u64,
    block_timestamp: u64,
)
    requires
        config.wf(),
        spec_swap(
            pool,
            config,
            direction,
            amount_specified,
            is_exact_in,
            mint_vault,
            usdc_vault,
            block_timestamp,
        ) is Ok,
    ensures
        ({
            let (after, res) = spec_swap(
                pool,
                config,
                direction,
                amount_specified,
                is_exact_in,
                mint_vault,
                usdc_vault,
                block_timestamp,
            )->Ok_0;
            let (r_mint, r_usdc) = pool.spec_vault_amount_without_fee(mint_vault, usdc_vault)->Ok_0;
            let net = res.source_amount - res.trade_fee;
            match direction {
                TradeDirection::MintToUsdc => {
                    &&& net >= 0
                    &&& (r_mint + net) * (r_usdc - res.destination_amount) >= r_mint * r_usdc
                    &&& (usdc_vault >= res.destination_amount ==> after.spec_vault_amount_without_fee(
                        (mint_vault + res.source_amount) as u64,
                        (usdc_vault - res.destination_amount) as u64,
                    ) == Ok::<(u64, u64), ErrorCode>(
                        ((r_mint + net) as u64, (r_usdc - res.destination_amount) as u64),
                    ))
                },
                TradeDirection::UsdcToMint => {
                    &&& net >= 0
                    &&& (r_usdc + net) * (r_mint - res.destination_amount) >= r_mint * r_usdc
                    &&& (mint_vault >= res.destination_amount ==> after.spec_vault_amount_without_fee(
                        (mint_vault - res.destination_amount) as u64,
                        (usdc_vault + res.source_amount) as u64,
                    ) == Ok::<(u64, u64), ErrorCode>(
                        ((r_mint - res.destination_amount) as u64, (r_usdc + net) as u64),
                    ))
                },
            }
        }),
{
    let (r_mint, r_usdc) = pool.spec_vault_amount_without_fee(mint_vault, usdc_vault)->Ok_0;
    let (source, destination) = match direction {
        TradeDirection::MintToUsdc => (r_mint, r_usdc),
        TradeDirection::UsdcToMint => (r_usdc, r_mint),
    };
    let rate = config.trade_fee_rate;
    let res = swap_outcome(direction, amount_specified, is_exact_in, r_mint, r_usdc, rate)->Ok_0;
    let after = pool.spec_credit_trade_fee(direction, res.trade_fee, config.protocol_fee_rate)->Ok_0;
    let net = res.source_amount - res.trade_fee;
    crate::fees::lemma_fee_floor_bounded(res.trade_fee as int, config.protocol_fee_rate as int);
    if is_exact_in {
        let fee = fee_floor(amount_specified as int, rate as int);
        crate::fees::lemma_fee_floor_bounded(amount_specified as int, rate as int);
        assert(net == amount_specified - fee);
        lemma_floor_output_keeps_product(
            source as int,
            destination as int,
            net,
            destination * net / (source + net),
        );
        assert(res.destination_amount == destination * net / (source + net));
    } else {
        let q = div_ceil(source * amount_specified, destination - amount_specified);
        lemma_ceil_input_keeps_product(source as int, destination as int, amount_specified as int, q);
        lemma_gross_up_covers(q, rate as int);
        assert(net == q);
        assert(res.destination_amount == amount_specified);
    }
    assert(spec_swap(
        pool,
        config,
        direction,
        amount_specified,
        is_exact_in,
        mint_vault,
        usdc_vault,
        block_timestamp,
    ) == Ok::<(PoolState, SwapResult), ErrorCode>((after, res)));
    assert(res.destination_amount <= destination);
    assert(net >= 0);
    assert((source + net) * (destination - res.destination_amount) >= source * destination);
    match direction {
        TradeDirection::MintToUsdc => {
            assert(after.protocol_fees_token_mint + after.creator_fees_token_mint
                == pool.protocol_fees_token_mint + pool.creator_fees_token_mint + res.trade_fee);
            assert(after.protocol_fees_token_usdc == pool.protocol_fees_token_usdc);
            assert(after.creator_fees_token_usdc == pool.creator_fees_token_usdc);
            assert(after.off_set == pool.off_set);
            assert((r_mint + net) * (r_usdc - res.destination_amount) >= r_mint * r_usdc) by (nonlinear_arith)
                requires
                    (source + net) * (destination - res.destination_amount) >= source * destination,
                    source == r_mint,
                    destination == r_usdc,
            ;
            if usdc_vault >= res.destination_amount {
                let m = (mint_vault + res.source_amount) as u64;
                let u = (usdc_vault - res.destination_amount) as u64;
                assert(after.protocol_fees_token_mint + after.creator_fees_token_mint <= m);
                assert(u + after.off_set <= u64::MAX);
                assert(after.protocol_fees_token_usdc + after.creator_fees_token_usdc <= u + after.off_set);
                assert(after.spec_vault_amount_without_fee(m, u) == Ok::<(u64, u64), ErrorCode>(
                    ((r_mint + net) as u64, (r_usdc - res.destination_amount) as u64),
                ));
            }
        },
        TradeDirection::UsdcToMint => {
            assert(after.protocol_fees_token_usdc + after.creator_fees_token_usdc
                == pool.protocol_fees_token_usdc + pool.creator_fees_token_usdc + res.trade_fee);
            assert(after.protocol_fees_token_mint == pool.protocol_fees_token_mint);
            assert(after.creator_fees_token_mint == pool.creator_fees_token_mint);
            assert(after.off_set == pool.off_set);
            assert((r_usdc + net) * (r_mint - res.destination_amount) >= r_mint * r_usdc) by (nonlinear_arith)
                requires
                    (source + net) * (destination - res.destination_amount) >= source * destination,
                    source == r_usdc,
                    destination == r_mint,
            ;
            if mint_vault >= res.destination_amount {
                let m = (mint_vault - res.destination_amount) as u64;
                let u = (usdc_vault + res.source_amount) as u64;
                assert(after.protocol_fees_token_mint + after.creator_fees_token_mint <= m);
                assert(u + after.off_set == usdc_vault + pool.off_set + res.source_amount);
                assert(after.protocol_fees_token_usdc + after.creator_fees_token_usdc <= u
                    + after.off_set);
                assert(after.spec_vault_amount_without_fee(m, u) == Ok::<(u64, u64), ErrorCode>(
                    ((r_mint - res.destination_amount) as u64, (r_usdc + net) as u64),
                ));
            }
        },
    }
}

/// Quotes a trade against the pool's virtual reserves at the given vault
/// balances and credits its fee. Swaps must be switched on and the pool
/// open (`NotApproved` otherwise); a trade whose input the vault could not
/// take and still be read back is refused (`ArithmeticError`). On any error the pool is left as it was.
pub fn swap(
    pool: &mut PoolState,
    config: &AmmConfig,
    direction: TradeDirection,
    amount_specified: u64,
    is_exact_in: bool,
    mint_vault: u64,
    usdc_vault: u64,
    block_timestamp: u64,
) -> (r: Result<SwapResult, ErrorCode>)
    requires
        config.wf(),
    ensures
        match spec_swap(
            *old(pool),
            *config,
            direction,
            amount_specified,
            is_exact_in,
            mint_vault,
            usdc_vault,
            block_timestamp,
        ) {
            Ok((p, res)) => r == Ok::<SwapResult, ErrorCode>(res) && *final(pool) == p,
            Err(e) => r == Err::<SwapResult, ErrorCode>(e) && *final(pool) == *old(pool),
        },
{
    if !pool.get_status_by_bit(PoolStatusBitIndex::Swap) || block_timestamp < pool.open_time {
        return Err(ErrorCode::NotApproved);
    }
    let (mint_reserve, usdc_reserve) = match pool.vault_amount_without_fee(mint_vault, usdc_vault) {
        Ok(v) => v,
        Err(e) => {
            return Err(e);
        },
    };
    let res = match CurveCalculator::swap(
        direction,
        amount_specified,
        is_exact_in,
        mint_reserve,
        usdc_reserve,
        config.trade_fee_rate,
    ) {
        Ok(res) => res,
        Err(e) => {
            return Err(e);
        },
    };
    let fits = match direction {
        TradeDirection::MintToUsdc => mint_vault as u128 + res.source_amount as u128
            <= u64::MAX as u128,
        TradeDirection::UsdcToMint => usdc_vault as u128 + res.source_amount as u128
            + pool.off_set as u128 <= u64::MAX as u128,
    };
    if !fits {
        return Err(ErrorCode::ArithmeticError);
    }
    match pool.credit_trade_fee(direction, res.trade_fee, config.protocol_fee_rate) {
        Ok(()) => Ok(res),
        Err(e) => Err(e),
    }
}

/// Replaces the pool's status byte and stamps the epoch of the change.
pub fn update_pool_status(pool: &mut PoolState, status: u8, epoch: u64)
    ensures
        *final(pool) == (PoolState { status, recent_epoch: epoch, ..*old(pool) }),
{
    pool.set_status(status);
    pool.recent_epoch = epoch;
}

} // verus!
