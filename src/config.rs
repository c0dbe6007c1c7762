use vstd::prelude::*;

use crate::address::Address;
use crate::error::ErrorCode;
use crate::fees::FEE_RATE_DENOMINATOR_VALUE;

verus! {

/// The fee parameters shared by every pool of one fee tier.
#[derive(Clone, Copy, Debug, Default)]
pub struct AmmConfig {
    pub bump: u8,
    /// When set, no new pool may be created under this config.
    pub disable_create_pool: bool,
    pub index: u16,
    /// The trade fee, in parts per million.
    pub trade_fee_rate: u64,
    /// The protocol's share of each trade fee, in parts per million.
    pub protocol_fee_rate: u64,
    /// Who receives the protocol's share.
    pub protocol_fee_collector: Address,
}

impl AmmConfig {
    /// Both rates are within their range.
    pub open spec fn wf(self) -> bool {
        self.trade_fee_rate < FEE_RATE_DENOMINATOR_VALUE && self.protocol_fee_rate
            <= FEE_RATE_DENOMINATOR_VALUE
    }
}

/// One change to a config: which field and its new value.
#[derive(Clone, Copy, Debug, PartialEq, Eq, Structural)]
pub enum AmmConfigUpdate {
    TradeFeeRate(u64),
    ProtocolFeeRate(u64),
    ProtocolFeeCollector(Address),
    DisableCreatePool(bool),
}

/// The change that selector `param` with `value` asks for; selector 2 takes
/// the new collector from `new_owner`.
pub open spec fn spec_config_update(param: u8, value: u64, new_owner: Option<Address>) -> Result<
    AmmConfigUpdate,
    ErrorCode,
> {
    if param == 0 {
        Ok(AmmConfigUpdate::TradeFeeRate(value))
    } else if param == 1 {
        Ok(AmmConfigUpdate::ProtocolFeeRate(value))
    } else if param == 2 {
        match new_owner {
            Some(owner) => Ok(AmmConfigUpdate::ProtocolFeeCollector(owner)),
            None => Err(ErrorCode::InvalidInput),
        }
    } else if param == 3 {
        Ok(AmmConfigUpdate::DisableCreatePool(value != 0))
    } else {
        Err(ErrorCode::InvalidInput)
    }
}

/// The config after `update`, or the error that refuses it: a rate out of
/// range, or the zero address as collector.
pub open spec fn spec_apply_update(config: AmmConfig, update: AmmConfigUpdate) -> Result<
    AmmConfig,
    ErrorCode,
> {
    match update {
        AmmConfigUpdate::TradeFeeRate(rate) => if rate < FEE_RATE_DENOMINATOR_VALUE {
            Ok(AmmConfig { trade_fee_rate: rate, ..config })
        } else {
            Err(ErrorCode::InvalidInput)
        },
        AmmConfigUpdate::ProtocolFeeRate(rate) => if rate <= FEE_RATE_DENOMINATOR_VALUE {
            Ok(AmmConfig { protocol_fee_rate: rate, ..config })
        } else {
            Err(ErrorCode::InvalidInput)
        },
        AmmConfigUpdate::ProtocolFeeCollector(owner) => if owner != Address::spec_zero() {
            Ok(AmmConfig { protocol_fee_collector: owner, ..config })
        } else {
            Err(ErrorCode::InvalidInput)
        },
        AmmConfigUpdate::DisableCreatePool(disable) => Ok(
            AmmConfig { disable_create_pool: disable, ..config },
        ),
    }
}

impl AmmConfigUpdate {
    /// Reads a `(selector, value)` pair: 0 trade fee rate, 1 protocol fee
    /// rate, 2 protocol fee collector, 3 pool creation switch (non-zero
    /// disables).
    pub fn from_param(param: u8, value: u64, new_owner: Option<Address>) -> (r: Result<
        AmmConfigUpdate,
        ErrorCode,
    >)
        ensures
            r == spec_config_update(param, value, new_owner),
    {
        match param {
            0 => Ok(AmmConfigUpdate::TradeFeeRate(value)),
            1 => Ok(AmmConfigUpdate::ProtocolFeeRate(value)),
            2 => match new_owner {
                Some(owner) => Ok(AmmConfigUpdate::ProtocolFeeCollector(owner)),
                None => Err(ErrorCode::InvalidInput),
            },
            3 => Ok(AmmConfigUpdate::DisableCreatePool(value != 0)),
            _ => Err(ErrorCode::InvalidInput),
        }
    }
}

/// Applies one change to a config; on error the config is left as it was.
pub fn apply_amm_config_update(amm_config: &mut AmmConfig, update: AmmConfigUpdate) -> (r: Result<
    (),
    ErrorCode,
>)
    ensures
        match spec_apply_update(*old(amm_config), update) {
            Ok(c) => r is Ok && *final(amm_config) == c,
            Err(e) => r == Err::<(), ErrorCode>(e) && *final(amm_config) == *old(amm_config),
        },
{
    match update {
        AmmConfigUpdate::TradeFeeRate(rate) => {
            if rate >= FEE_RATE_DENOMINATOR_VALUE {
                return Err(ErrorCode::InvalidInput);
            }
            update_trade_fee_rate(amm_config, rate);
            Ok(())
        },
        AmmConfigUpdate::ProtocolFeeRate(rate) => {
            if rate > FEE_RATE_DENOMINATOR_VALUE {
                return Err(ErrorCode::InvalidInput);
            }
            update_protocol_fee_rate(amm_config, rate);
            Ok(())
        },
        AmmConfigUpdate::ProtocolFeeCollector(owner) => set_new_protocol_owner(amm_config, owner),
        AmmConfigUpdate::DisableCreatePool(disable) => {
            amm_config.disable_create_pool = disable;
            Ok(())
        },
    }
}

/// Changes one field of a config, chosen by selector `param` (see
/// `AmmConfigUpdate::from_param`); an unknown selector, a missing collector,
/// a rate out of range or the zero address as collector is refused with
/// `InvalidInput` and leaves the config as it was.
pub fn update_amm_config(
    amm_config: &mut AmmConfig,
    param: u8,
    value: u64,
    new_owner: Option<Address>,
) -> (r: Result<(), ErrorCode>)
    ensures
        match spec_config_update(param, value, new_owner) {
            Err(e) => r == Err::<(), ErrorCode>(e) && *final(amm_config) == *old(amm_config),
            Ok(u) => match spec_apply_update(*old(amm_config), u) {
                Ok(c) => r is Ok && *final(amm_config) == c,
                Err(e) => r == Err::<(), ErrorCode>(e) && *final(amm_config) == *old(
                    amm_config,
                ),
            },
        },
        old(amm_config).wf() ==> final(amm_config).wf(),
{
    let update = match AmmConfigUpdate::from_param(param, value, new_owner) {
        Ok(u) => u,
        Err(e) => {
            return Err(e);
        },
    };
    apply_amm_config_update(amm_config, update)
}

fn update_protocol_fee_rate(amm_config: &mut AmmConfig, protocol_fee_rate: u64)
    requires
        protocol_fee_rate <= FEE_RATE_DENOMINATOR_VALUE,
    ensures
        *final(amm_config) == (AmmConfig { protocol_fee_rate, ..*old(amm_config) }),
{
    amm_config.protocol_fee_rate = protocol_fee_rate;
}

fn update_trade_fee_rate(amm_config: &mut AmmConfig, trade_fee_rate: u64)
    requires
        trade_fee_rate < FEE_RATE_DENOMINATOR_VALUE,
    ensures
        *final(amm_config) == (AmmConfig { trade_fee_rate, ..*old(amm_config) }),
{
    amm_config.trade_fee_rate = trade_fee_rate;
}

fn set_new_protocol_owner(amm_config: &mut AmmConfig, new_owner: Address) -> (r: Result<
    (),
    ErrorCode,
>)
    ensures
        new_owner == Address::spec_zero() ==> r == Err::<(), ErrorCode>(ErrorCode::InvalidInput)
            && *final(amm_config) == *old(amm_config),
        new_owner != Address::spec_zero() ==> r is Ok && *final(amm_config) == (AmmConfig {
            protocol_fee_collector: new_owner,
            ..*old(amm_config)
        }),
{
    if new_owner.is_zero() {
        return Err(ErrorCode::InvalidInput);
    }
    amm_config.protocol_fee_collector = new_owner;
    Ok(())
}

} // verus!
