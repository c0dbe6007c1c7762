use vstd::prelude::*;

use crate::address::Address;
use crate::curve::TradeDirection;
use crate::error::ErrorCode;
use crate::fees::{fee_floor, split_trade_fee, FEE_RATE_DENOMINATOR_VALUE};

verus! {

/// `2^32`, the unit of a Q32.32 fixed-point price.
pub const Q32: u128 = 4_294_967_296;

/// The operations that the status byte can switch off, one bit each.
#[derive(Clone, Copy, Debug, PartialEq, Eq, Structural)]
pub enum PoolStatusBitIndex {
    Deposit,
    Withdraw,
    Swap,
}

/// Whether an operation is switched on or off.
#[derive(Clone, Copy, Debug, PartialEq, Eq, Structural)]
pub enum PoolStatusBitFlag {
    Enable,
    Disable,
}

impl PoolStatusBitIndex {
    pub open spec fn spec_index(self) -> u8 {
        match self {
            PoolStatusBitIndex::Deposit => 0,
            PoolStatusBitIndex::Withdraw => 1,
            PoolStatusBitIndex::Swap => 2,
        }
    }

    /// The bit of the status byte that this operation owns.
    pub fn index(&self) -> (r: u8)
        ensures
            r == self.spec_index(),
            r < 3,
    {
        match self {
            PoolStatusBitIndex::Deposit => 0,
            PoolStatusBitIndex::Withdraw => 1,
            PoolStatusBitIndex::Swap => 2,
        }
    }
}

/// Whether bit `i` of `status` is clear, that is, the operation it owns is
/// switched on.
pub open spec fn bit_is_clear(status: u8, i: u8) -> bool {
    status & (1u8 << i) == 0
}

/// `status` with bit `i` set (`disable`) or cleared, all other bits kept.
pub open spec fn status_with_bit(status: u8, i: u8, disable: bool) -> u8 {
    if disable {
        status | (1u8 << i)
    } else {
        status & (255u8 ^ (1u8 << i))
    }
}

proof fn lemma_set_bit(status: u8, i: u8)
    by (bit_vector)
    requires
        i < 8,
    ensures
        (status | (1u8 << i)) & (1u8 << i) != 0,
        forall|j: u8|
            j < 8 && j != i ==> (((status | (1u8 << i)) & (1u8 << j) == 0) <==> (status & (1u8
                << j) == 0)),
{
}

proof fn lemma_clear_bit(status: u8, i: u8)
    by (bit_vector)
    requires
        i < 8,
    ensures
        (status & (255u8 ^ (1u8 << i))) & (1u8 << i) == 0,
        forall|j: u8|
            j < 8 && j != i ==> (((status & (255u8 ^ (1u8 << i))) & (1u8 << j) == 0) <==> (status
                & (1u8 << j) == 0)),
{
}

/// Switching an operation off and then on again restores a status in which
/// it was on.
pub proof fn lemma_disable_then_enable_restores(status: u8, i: u8)
    requires
        i < 3,
        bit_is_clear(status, i),
    ensures
        status_with_bit(status_with_bit(status, i, true), i, false) == status,
{
    assert((status & (1u8 << i)) == 0 ==> ((status | (1u8 << i)) & (255u8 ^ (1u8 << i)))
        == status) by (bit_vector);
}

/// Setting or clearing a bit that is already so changes nothing.
pub proof fn lemma_status_with_bit_idempotent(status: u8, i: u8, disable: bool)
    requires
        i < 3,
    ensures
        status_with_bit(status_with_bit(status, i, disable), i, disable) == status_with_bit(
            status,
            i,
            disable,
        ),
{
    assert(((status | (1u8 << i)) | (1u8 << i)) == (status | (1u8 << i))) by (bit_vector);
    assert(((status & (255u8 ^ (1u8 << i))) & (255u8 ^ (1u8 << i))) == (status & (255u8 ^ (1u8
        << i)))) by (bit_vector);
}

/// The record of one pool: its identity, its fee accumulators, its status
/// byte and the virtual offset of its reference-asset reserve.
#[derive(Clone, Copy, Debug, Default)]
pub struct PoolState {
    /// Which config the pool belongs to.
    pub amm_config: Address,
    /// The pool's creator, who may collect the creator fees.
    pub pool_creator: Address,
    /// The vault of the listed asset.
    pub token_mint_vault: Address,
    /// The vault of the reference asset.
    pub token_usdc_vault: Address,
    /// The mint of the listed asset.
    pub mint: Address,
    /// The token program that owns the listed asset's mint.
    pub mint_token_program: Address,
    /// The account that stores oracle observations.
    pub observation_key: Address,
    pub auth_bump: u8,
    /// bit 0 disables deposits, bit 1 withdrawals, bit 2 swaps.
    pub status: u8,
    /// Decimals of the listed asset.
    pub mint_decimals: u8,
    pub protocol_fees_token_mint: u64,
    pub protocol_fees_token_usdc: u64,
    pub creator_fees_token_mint: u64,
    pub creator_fees_token_usdc: u64,
    /// The first timestamp at which swaps are allowed.
    pub open_time: u64,
    pub recent_epoch: u64,
    /// The virtual reserve added to the reference vault's balance.
    pub off_set: u64,
}

/// What is known of the listed asset's mint when a pool is created.
#[derive(Clone, Copy, Debug, PartialEq, Eq, Structural)]
pub struct MintInfo {
    pub key: Address,
    /// The token program that owns the mint.
    pub owner: Address,
    pub decimals: u8,
}

/// The four fee accumulators, as collected from a pool.
#[derive(Clone, Copy, Debug, PartialEq, Eq, Structural)]
pub struct CollectedFees {
    pub creator_mint: u64,
    pub creator_usdc: u64,
    pub protocol_mint: u64,
    pub protocol_usdc: u64,
}

impl PoolState {
    /// The virtual reserves `(listed, reference)` for the given vault
    /// balances: fees still owed are taken out, the offset is added to the
    /// reference side.
    pub open spec fn spec_vault_amount_without_fee(self, mint_vault: u64, usdc_vault: u64) -> Result<
        (u64, u64),
        ErrorCode,
    > {
        let mint_fees = self.protocol_fees_token_mint + self.creator_fees_token_mint;
        let usdc_fees = self.protocol_fees_token_usdc + self.creator_fees_token_usdc;
        let usdc_total = usdc_vault + self.off_set;
        if mint_fees > mint_vault || usdc_total > u64::MAX || usdc_fees > usdc_total {
            Err(ErrorCode::ArithmeticError)
        } else {
            Ok(((mint_vault - mint_fees) as u64, (usdc_total - usdc_fees) as u64))
        }
    }

    /// The Q32.32 prices `(reference per listed, listed per reference)` and
    /// the reference liquidity without the offset.
    pub open spec fn spec_token_price_x32(self, mint_vault: u64, usdc_vault: u64) -> Result<
        (u128, u128, u64),
        ErrorCode,
    > {
        match self.spec_vault_amount_without_fee(mint_vault, usdc_vault) {
            Err(e) => Err(e),
            Ok((t0, t1)) => if t0 == 0 || t1 == 0 || t1 < self.off_set {
                Err(ErrorCode::ArithmeticError)
            } else {
                Ok(
                    (
                        (t1 as int * Q32 as int / t0 as int) as u128,
                        (t0 as int * Q32 as int / t1 as int) as u128,
                        (t1 - self.off_set) as u64,
                    ),
                )
            },
        }
    }

    /// The accumulators as `collect_and_reset` hands them out.
    pub open spec fn spec_fees(self) -> CollectedFees {
        CollectedFees {
            creator_mint: self.creator_fees_token_mint,
            creator_usdc: self.creator_fees_token_usdc,
            protocol_mint: self.protocol_fees_token_mint,
            protocol_usdc: self.protocol_fees_token_usdc,
        }
    }

    /// The pool with all four accumulators at zero.
    pub open spec fn spec_drained(self) -> PoolState {
        PoolState {
            creator_fees_token_mint: 0,
            creator_fees_token_usdc: 0,
            protocol_fees_token_mint: 0,
            protocol_fees_token_usdc: 0,
            ..self
        }
    }

    /// Fills in a freshly created pool; every fee accumulator starts at zero.
    pub fn initialize(
        &mut self,
        off_set: u64,
        auth_bump: u8,
        open_time: u64,
        pool_creator: Address,
        amm_config: Address,
        token_mint_vault: Address,
        token_usdc_vault: Address,
        mint: &MintInfo,
        observation_key: Address,
        epoch: u64,
    )
        ensures
            *final(self) == (PoolState {
                amm_config,
                pool_creator,
                token_mint_vault,
                token_usdc_vault,
                mint: mint.key,
                mint_token_program: mint.owner,
                observation_key,
                auth_bump,
                status: old(self).status,
                mint_decimals: mint.decimals,
                protocol_fees_token_mint: 0,
                protocol_fees_token_usdc: 0,
                creator_fees_token_mint: 0,
                creator_fees_token_usdc: 0,
                open_time,
                recent_epoch: epoch,
                off_set,
            }),
    {
        self.off_set = off_set;
        self.amm_config = amm_config;
        self.pool_creator = pool_creator;
        self.token_mint_vault = token_mint_vault;
        self.token_usdc_vault = token_usdc_vault;
        self.mint = mint.key;
        self.mint_token_program = mint.owner;
        self.observation_key = observation_key;
        self.auth_bump = auth_bump;
        self.mint_decimals = mint.decimals;
        self.protocol_fees_token_mint = 0;
        self.protocol_fees_token_usdc = 0;
        self.creator_fees_token_mint = 0;
        self.creator_fees_token_usdc = 0;
        self.open_time = open_time;
        self.recent_epoch = epoch;
    }

    /// Replaces the whole status byte.
    pub fn set_status(&mut self, status: u8)
        ensures
            *final(self) == (PoolState { status, ..*old(self) }),
    {
        self.status = status
    }

    /// Switches one operation on or off, keeping every other bit.
    pub fn set_status_by_bit(&mut self, bit: PoolStatusBitIndex, flag: PoolStatusBitFlag)
        ensures
            *final(self) == (PoolState {
                status: status_with_bit(
                    old(self).status,
                    bit.spec_index(),
                    flag == PoolStatusBitFlag::Disable,
                ),
                ..*old(self)
            }),
            bit_is_clear(final(self).status, bit.spec_index()) == (flag
                == PoolStatusBitFlag::Enable),
            forall|j: u8|
                j < 8 && j != bit.spec_index() ==> bit_is_clear(final(self).status, j)
                    == bit_is_clear(old(self).status, j),
    {
        let i = bit.index();
        let s: u8 = 1u8 << i;
        proof {
            lemma_set_bit(self.status, i);
            lemma_clear_bit(self.status, i);
        }
        if flag == PoolStatusBitFlag::Disable {
            self.status = self.status | s;
        } else {
            let m: u8 = 255u8 ^ s;
            self.status = self.status & m;
        }
    }

    /// Whether the operation is switched on (its bit is clear).
    pub fn get_status_by_bit(&self, bit: PoolStatusBitIndex) -> (r: bool)
        ensures
            r == bit_is_clear(self.status, bit.spec_index()),
    {
        let i = bit.index();
        let status: u8 = 1u8 << i;
        self.status & status == 0
    }

    /// The virtual reserves `(listed, reference)` for the given vault balances.
    pub fn vault_amount_without_fee(&self, mint_vault: u64, usdc_vault: u64) -> (r: Result<
        (u64, u64),
        ErrorCode,
    >)
        ensures
            r == self.spec_vault_amount_without_fee(mint_vault, usdc_vault),
    {
        let mint_fees: u128 = self.protocol_fees_token_mint as u128
            + self.creator_fees_token_mint as u128;
        let usdc_fees: u128 = self.protocol_fees_token_usdc as u128
            + self.creator_fees_token_usdc as u128;
        if mint_fees > mint_vault as u128 {
            return Err(ErrorCode::ArithmeticError);
        }
        let usdc_total = match usdc_vault.checked_add(self.off_set) {
            Some(t) => t,
            None => {
                return Err(ErrorCode::ArithmeticError);
            },
        };
        if usdc_fees > usdc_total as u128 {
            return Err(ErrorCode::ArithmeticError);
        }
        Ok(((mint_vault as u128 - mint_fees) as u64, (usdc_total as u128 - usdc_fees) as u64))
    }

    /// The Q32.32 prices `(reference per listed, listed per reference)` at
    /// the given vault balances, and the reference liquidity without the
    /// offset.
    pub fn token_price_x32(&self, vault_0: u64, vault_1: u64) -> (r: Result<
        (u128, u128, u64),
        ErrorCode,
    >)
        ensures
            r == self.spec_token_price_x32(vault_0, vault_1),
    {
        let (token_0_amount, token_1_amount) = match self.vault_amount_without_fee(
            vault_0,
            vault_1,
        ) {
            Ok(v) => v,
            Err(e) => {
                return Err(e);
            },
        };
        if token_0_amount == 0 || token_1_amount == 0 || token_1_amount < self.off_set {
            return Err(ErrorCode::ArithmeticError);
        }
        proof {
            assert(token_1_amount as int * Q32 as int <= u64::MAX as int * Q32 as int)
                by (nonlinear_arith)
                requires
                    token_1_amount <= u64::MAX,
            ;
            assert(token_0_amount as int * Q32 as int <= u64::MAX as int * Q32 as int)
                by (nonlinear_arith)
                requires
                    token_0_amount <= u64::MAX,
            ;
            vstd::arithmetic::div_mod::lemma_div_is_ordered_by_denominator(
                token_1_amount as int * Q32 as int,
                1,
                token_0_amount as int,
            );
            vstd::arithmetic::div_mod::lemma_div_is_ordered_by_denominator(
                token_0_amount as int * Q32 as int,
                1,
                token_1_amount as int,
            );
        }
        Ok(
            (
                token_1_amount as u128 * Q32 / token_0_amount as u128,
                token_0_amount as u128 * Q32 / token_1_amount as u128,
                token_1_amount - self.off_set,
            ),
        )
    }

    /// The pool after a trade in `direction` paid `trade_fee`: the fee is
    /// split between protocol and creator and credited to the side the
    /// trade paid into.
    pub open spec fn spec_credit_trade_fee(
        self,
        direction: TradeDirection,
        trade_fee: u64,
        protocol_fee_rate: u64,
    ) -> Result<PoolState, ErrorCode> {
        let protocol = fee_floor(trade_fee as int, protocol_fee_rate as int);
        let creator = trade_fee - protocol;
        match direction {
            TradeDirection::MintToUsdc => if self.protocol_fees_token_mint + protocol > u64::MAX
                || self.creator_fees_token_mint + creator > u64::MAX {
                Err(ErrorCode::ArithmeticError)
            } else {
                Ok(
                    PoolState {
                        protocol_fees_token_mint: (self.protocol_fees_token_mint
                            + protocol) as u64,
                        creator_fees_token_mint: (self.creator_fees_token_mint + creator) as u64,
                        ..self
                    },
                )
            },
            TradeDirection::UsdcToMint => if self.protocol_fees_token_usdc + protocol > u64::MAX
                || self.creator_fees_token_usdc + creator > u64::MAX {
                Err(ErrorCode::ArithmeticError)
            } else {
                Ok(
                    PoolState {
                        protocol_fees_token_usdc: (self.protocol_fees_token_usdc
                            + protocol) as u64,
                        creator_fees_token_usdc: (self.creator_fees_token_usdc + creator) as u64,
                        ..self
                    },
                )
            },
        }
    }

    /// Credits a trade's fee to the accumulators of the side it was paid
    /// on; on overflow the pool is left as it was.
    pub fn credit_trade_fee(
        &mut self,
        direction: TradeDirection,
        trade_fee: u64,
        protocol_fee_rate: u64,
    ) -> (r: Result<(), ErrorCode>)
        requires
            protocol_fee_rate <= FEE_RATE_DENOMINATOR_VALUE,
        ensures
            match old(self).spec_credit_trade_fee(direction, trade_fee, protocol_fee_rate) {
                Ok(p) => r is Ok && *final(self) == p,
                Err(e) => r == Err::<(), ErrorCode>(e) && *final(self) == *old(self),
            },
    {
        let (protocol, creator) = split_trade_fee(trade_fee, protocol_fee_rate);
        match direction {
            TradeDirection::MintToUsdc => {
                let p = match self.protocol_fees_token_mint.checked_add(protocol) {
                    Some(v) => v,
                    None => {
                        return Err(ErrorCode::ArithmeticError);
                    },
                };
                let c = match self.creator_fees_token_mint.checked_add(creator) {
                    Some(v) => v,
                    None => {
                        return Err(ErrorCode::ArithmeticError);
                    },
                };
                self.protocol_fees_token_mint = p;
                self.creator_fees_token_mint = c;
            },
            TradeDirection::UsdcToMint => {
                let p = match self.protocol_fees_token_usdc.checked_add(protocol) {
                    Some(v) => v,
                    None => {
                        return Err(ErrorCode::ArithmeticError);
                    },
                };
                let c = match self.creator_fees_token_usdc.checked_add(creator) {
                    Some(v) => v,
                    None => {
                        return Err(ErrorCode::ArithmeticError);
                    },
                };
                self.protocol_fees_token_usdc = p;
                self.creator_fees_token_usdc = c;
            },
        }
        Ok(())
    }

    /// Hands out all four fee accumulators and sets them to zero.
    pub fn collect_and_reset(&mut self) -> (r: CollectedFees)
        ensures
            r == old(self).spec_fees(),
            *final(self) == old(self).spec_drained(),
    {
        let r = CollectedFees {
            creator_mint: self.creator_fees_token_mint,
            creator_usdc: self.creator_fees_token_usdc,
            protocol_mint: self.protocol_fees_token_mint,
            protocol_usdc: self.protocol_fees_token_usdc,
        };
        self.creator_fees_token_mint = 0;
        self.creator_fees_token_usdc = 0;
        self.protocol_fees_token_mint = 0;
        self.protocol_fees_token_usdc = 0;
        r
    }
}

/// Collecting the fees twice in a row hands out nothing the second time.
pub proof fn lemma_second_collect_is_empty(pool: PoolState)
    ensures
        pool.spec_drained().spec_fees() == (CollectedFees {
            creator_mint: 0,
            creator_usdc: 0,
            protocol_mint: 0,
            protocol_usdc: 0,
        }),
        pool.spec_drained().spec_drained() == pool.spec_drained(),
{
}

} // verus!
