use vstd::prelude::*;

verus! {

/// Denominator of every fee rate: rates are parts per million.
pub const FEE_RATE_DENOMINATOR_VALUE: u64 = 1_000_000;

/// `floor(amount * rate / 10^6)`.
pub open spec fn fee_floor(amount: int, rate: int) -> int {
    amount * rate / (FEE_RATE_DENOMINATOR_VALUE as int)
}

/// The fee that an exact-in trade of `amount` pays at `trade_fee_rate`,
/// rounded down.
pub fn trading_fee(amount: u64, trade_fee_rate: u64) -> (r: u64)
    requires
        trade_fee_rate <= FEE_RATE_DENOMINATOR_VALUE,
    ensures
        r == fee_floor(amount as int, trade_fee_rate as int),
        r <= amount,
{
    proof {
        lemma_fee_floor_bounded(amount as int, trade_fee_rate as int);
    }
    let p: u128 = amount as u128 * trade_fee_rate as u128;
    (p / (FEE_RATE_DENOMINATOR_VALUE as u128)) as u64
}

/// Splits a gross trade fee into `(protocol_share, creator_share)`: the
/// protocol takes its rate rounded down, the creator the remainder.
pub fn split_trade_fee(gross_fee: u64, protocol_fee_rate: u64) -> (r: (u64, u64))
    requires
        protocol_fee_rate <= FEE_RATE_DENOMINATOR_VALUE,
    ensures
        r.0 == fee_floor(gross_fee as int, protocol_fee_rate as int),
        r.0 + r.1 == gross_fee,
{
    let protocol = trading_fee(gross_fee, protocol_fee_rate);
    (protocol, gross_fee - protocol)
}

/// A fee at a rate of at most one is between zero and the amount.
pub proof fn lemma_fee_floor_bounded(amount: int, rate: int)
    requires
        0 <= amount,
        0 <= rate <= FEE_RATE_DENOMINATOR_VALUE,
    ensures
        0 <= fee_floor(amount, rate) <= amount,
{
    assert(0 <= amount * rate <= amount * 1_000_000) by (nonlinear_arith)
        requires
            0 <= amount,
            0 <= rate <= 1_000_000,
    ;
    assert(amount * 1_000_000 / 1_000_000 == amount) by (nonlinear_arith);
    vstd::arithmetic::div_mod::lemma_div_is_ordered(amount * rate, amount * 1_000_000, 1_000_000);
    vstd::arithmetic::div_mod::lemma_div_pos_is_pos(amount * rate, 1_000_000);
}

} // verus!
