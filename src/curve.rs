use vstd::prelude::*;

use crate::error::ErrorCode;
use crate::fees::{fee_floor, trading_fee, FEE_RATE_DENOMINATOR_VALUE};

verus! {

/// Which way a trade moves through the pool.
#[derive(Clone, Copy, Debug, PartialEq, Eq, Structural)]
pub enum TradeDirection {
    /// The listed asset comes in, the reference asset goes out.
    MintToUsdc,
    /// The reference asset comes in, the listed asset goes out.
    UsdcToMint,
}

/// The amounts of one trade against virtual reserves.
#[derive(Clone, Copy, Debug, PartialEq, Eq, Structural)]
pub struct SwapResult {
    /// What the trader pays in, fee included.
    pub source_amount: u64,
    /// What the trader receives.
    pub destination_amount: u64,
    /// The part of `source_amount` kept as fee; it never enters the reserves.
    pub trade_fee: u64,
}

/// `ceil(a / b)` for `b > 0`.
pub open spec fn div_ceil(a: int, b: int) -> int {
    (a + b - 1) / b
}

/// The fee-inclusive input whose fee-free part covers `net` at `rate`:
/// `ceil(net * 10^6 / (10^6 - rate))`, or `net` itself at a zero rate.
pub open spec fn gross_up(net: int, rate: int) -> int {
    if rate == 0 {
        net
    } else {
        div_ceil(net * (FEE_RATE_DENOMINATOR_VALUE as int), FEE_RATE_DENOMINATOR_VALUE as int - rate)
    }
}

/// The exact-in trade of `amount` against reserves `source_reserve` (the side
/// paid into) and `destination_reserve`: the fee is taken off the input, the
/// rest goes through `x * y = k`, and the output is rounded down.
pub open spec fn base_input_outcome(
    amount: u64,
    source_reserve: u64,
    destination_reserve: u64,
    rate: u64,
) -> Result<SwapResult, ErrorCode> {
    let fee = fee_floor(amount as int, rate as int);
    let net = amount - fee;
    let grown = source_reserve + net;
    if grown > u64::MAX || grown == 0 {
        Err(ErrorCode::ArithmeticError)
    } else {
        Ok(
            SwapResult {
                source_amount: amount,
                destination_amount: (destination_reserve * net / grown) as u64,
                trade_fee: fee as u64,
            },
        )
    }
}

/// The exact-out trade that delivers `amount` from `destination_reserve`:
/// the fee-free input is `x * y = k` solved and rounded up, the fee is then
/// added on top.
pub open spec fn base_output_outcome(
    amount: u64,
    source_reserve: u64,
    destination_reserve: u64,
    rate: u64,
) -> Result<SwapResult, ErrorCode> {
    if amount >= destination_reserve {
        Err(ErrorCode::ArithmeticError)
    } else {
        let required = div_ceil(source_reserve * amount, destination_reserve - amount);
        let source = gross_up(required, rate as int);
        if source > u64::MAX || source_reserve + required > u64::MAX {
            Err(ErrorCode::ArithmeticError)
        } else {
            Ok(
                SwapResult {
                    source_amount: source as u64,
                    destination_amount: amount,
                    trade_fee: (source - required) as u64,
                },
            )
        }
    }
}

/// The trade that `CurveCalculator::swap` quotes.
pub open spec fn swap_outcome(
    direction: TradeDirection,
    amount: u64,
    is_exact_in: bool,
    mint_reserve: u64,
    usdc_reserve: u64,
    rate: u64,
) -> Result<SwapResult, ErrorCode> {
    let (source, destination) = match direction {
        TradeDirection::MintToUsdc => (mint_reserve, usdc_reserve),
        TradeDirection::UsdcToMint => (usdc_reserve, mint_reserve),
    };
    if is_exact_in {
        base_input_outcome(amount, source, destination, rate)
    } else {
        base_output_outcome(amount, source, destination, rate)
    }
}

/// Whether a seed deposit and an offset give a pool a defined starting price.
pub open spec fn supply_is_valid(initial_amount: u64, offset: u64) -> bool {
    initial_amount > 0 && offset > 0
}

/// A round trip never profits the trader: after an exact-in trade of
/// `amount`, buying that same `amount` back by an exact-out trade against
/// the reserves the first trade left costs at least what the first trade
/// paid out.
pub proof fn lemma_round_trip_never_profits(
    amount: u64,
    source_reserve: u64,
    destination_reserve: u64,
    rate: u64,
)
    requires
        rate < FEE_RATE_DENOMINATOR_VALUE,
        base_input_outcome(amount, source_reserve, destination_reserve, rate) is Ok,
    ensures
        ({
            let first = base_input_outcome(amount, source_reserve, destination_reserve, rate)->Ok_0;
            let net = first.source_amount - first.trade_fee;
            let back = base_output_outcome(
                amount,
                (destination_reserve - first.destination_amount) as u64,
                (source_reserve + net) as u64,
                rate,
            );
            back is Ok ==> back->Ok_0.source_amount >= first.destination_amount
        }),
{
    let first = base_input_outcome(amount, source_reserve, destination_reserve, rate)->Ok_0;
    let fee = fee_floor(amount as int, rate as int);
    crate::fees::lemma_fee_floor_bounded(amount as int, rate as int);
    let net = amount - fee;
    let x = source_reserve as int;
    let y = destination_reserve as int;
    let d = y * net / (x + net);
    lemma_floor_output_keeps_product(x, y, net, d);
    assert(first.destination_amount as int == d);
    vstd::arithmetic::div_mod::lemma_fundamental_div_mod(y * net, x + net);
    vstd::arithmetic::div_mod::lemma_mod_bound(y * net, x + net);
    assert((x + net) * d <= y * net);
    assert(d * (x + net) <= y * net) by (nonlinear_arith)
        requires
            (x + net) * d <= y * net,
    ;
    let back = base_output_outcome(amount, (y - d) as u64, (x + net) as u64, rate);
    if back is Ok {
        let a = amount as int;
        assert(a < x + net);
        let q = div_ceil((y - d) * a, x + net - a);
        lemma_ceil_input_keeps_product(y - d, x + net, a, q);
        assert(y * net <= y * a) by (nonlinear_arith)
            requires
                0 <= net <= a,
                y >= 0,
        ;
        assert(q >= d) by (nonlinear_arith)
            requires
                q * (x + net - a) >= (y - d) * a,
                d * (x + net) <= y * a,
                x + net - a > 0,
                d >= 0,
        ;
        lemma_gross_up_covers(q, rate as int);
    }
}

/// Rounding the output down keeps the product of the reserves from falling.
pub(crate) proof fn lemma_floor_output_keeps_product(x: int, y: int, n: int, d: int)
    requires
        0 <= x,
        0 <= y,
        0 <= n,
        x + n > 0,
        d == y * n / (x + n),
    ensures
        0 <= d <= y,
        (x + n) * (y - d) >= x * y,
{
    vstd::arithmetic::div_mod::lemma_fundamental_div_mod(y * n, x + n);
    vstd::arithmetic::div_mod::lemma_mod_bound(y * n, x + n);
    assert(y * n >= 0) by (nonlinear_arith)
        requires
            y >= 0,
            n >= 0,
    ;
    vstd::arithmetic::div_mod::lemma_div_pos_is_pos(y * n, x + n);
    assert((x + n) * d <= y * n);
    assert((x + n) * y >= y * n) by (nonlinear_arith)
        requires
            x >= 0,
            y >= 0,
            n >= 0,
    ;
    assert(d <= y) by (nonlinear_arith)
        requires
            (x + n) * d <= y * n,
            (x + n) * y >= y * n,
            x + n > 0,
            d >= 0,
    ;
    assert((x + n) * (y - d) >= x * y) by (nonlinear_arith)
        requires
            (x + n) * d <= y * n,
    ;
}

/// Rounding the required input up keeps the product of the reserves from
/// falling.
pub(crate) proof fn lemma_ceil_input_keeps_product(x: int, y: int, o: int, q: int)
    requires
        0 <= x,
        0 <= o < y,
        q == div_ceil(x * o, y - o),
    ensures
        q >= 0,
        q * (y - o) >= x * o,
        (x + q) * (y - o) >= x * y,
{
    let b = y - o;
    assert(x * o >= 0) by (nonlinear_arith)
        requires
            x >= 0,
            o >= 0,
    ;
    vstd::arithmetic::div_mod::lemma_fundamental_div_mod(x * o + b - 1, b);
    vstd::arithmetic::div_mod::lemma_mod_bound(x * o + b - 1, b);
    vstd::arithmetic::div_mod::lemma_div_pos_is_pos(x * o + b - 1, b);
    assert(q * b >= x * o);
    assert((x + q) * (y - o) >= x * y) by (nonlinear_arith)
        requires
            q * (y - o) >= x * o,
    ;
}

/// A grossed-up input is at least the fee-free input, and the exact-in fee
/// taken from it leaves at least that input.
pub(crate) proof fn lemma_gross_up_covers(net: int, rate: int)
    requires
        0 <= net,
        0 <= rate < FEE_RATE_DENOMINATOR_VALUE,
    ensures
        gross_up(net, rate) >= net,
        gross_up(net, rate) - fee_floor(gross_up(net, rate), rate) >= net,
{
    if rate == 0 {
        assert(fee_floor(net, 0) == 0);
    } else {
        let d = 1_000_000 - rate;
        let g = gross_up(net, rate);
        vstd::arithmetic::div_mod::lemma_fundamental_div_mod(net * 1_000_000 + d - 1, d);
        vstd::arithmetic::div_mod::lemma_mod_bound(net * 1_000_000 + d - 1, d);
        assert(g * d >= net * 1_000_000);
        assert(g >= net) by (nonlinear_arith)
            requires
                g * d >= net * 1_000_000,
                0 < d <= 1_000_000,
                net >= 0,
        ;
        let f = fee_floor(g, rate);
        vstd::arithmetic::div_mod::lemma_fundamental_div_mod(g * rate, 1_000_000);
        vstd::arithmetic::div_mod::lemma_mod_bound(g * rate, 1_000_000);
        assert(f * 1_000_000 <= g * rate);
        assert(g - f >= net) by (nonlinear_arith)
            requires
                g * (1_000_000 - rate) >= net * 1_000_000,
                f * 1_000_000 <= g * rate,
        ;
    }
}

/// Swap arithmetic on virtual reserves.
pub struct CurveCalculator;

impl CurveCalculator {
    /// Exact-in trade: pays `amount` into `source_reserve` and quotes what
    /// comes out of `destination_reserve`.
    pub fn swap_base_input(
        amount: u64,
        source_reserve: u64,
        destination_reserve: u64,
        trade_fee_rate: u64,
    ) -> (r: Result<SwapResult, ErrorCode>)
        requires
            trade_fee_rate < FEE_RATE_DENOMINATOR_VALUE,
        ensures
            r == base_input_outcome(amount, source_reserve, destination_reserve, trade_fee_rate),
    {
        let fee = trading_fee(amount, trade_fee_rate);
        let net = amount - fee;
        let grown = match source_reserve.checked_add(net) {
            Some(g) => g,
            None => {
                return Err(ErrorCode::ArithmeticError);
            },
        };
        if grown == 0 {
            return Err(ErrorCode::ArithmeticError);
        }
        proof {
            lemma_floor_output_keeps_product(
                source_reserve as int,
                destination_reserve as int,
                net as int,
                destination_reserve as int * net as int / grown as int,
            );
            assert(destination_reserve as int * net as int <= u64::MAX as int * u64::MAX as int)
                by (nonlinear_arith)
                requires
                    destination_reserve <= u64::MAX,
                    net <= u64::MAX,
            ;
        }
        let out: u128 = destination_reserve as u128 * net as u128 / grown as u128;
        let destination_amount = out as u64;
        if !Self::keeps_product(source_reserve, destination_reserve, grown, destination_reserve
            - destination_amount) {
            return Err(ErrorCode::InvariantViolation);
        }
        Ok(SwapResult { source_amount: amount, destination_amount, trade_fee: fee })
    }

    /// Exact-out trade: quotes what must be paid into `source_reserve` for
    /// `amount` to come out of `destination_reserve`.
    pub fn swap_base_output(
        amount: u64,
        source_reserve: u64,
        destination_reserve: u64,
        trade_fee_rate: u64,
    ) -> (r: Result<SwapResult, ErrorCode>)
        requires
            trade_fee_rate < FEE_RATE_DENOMINATOR_VALUE,
        ensures
            r == base_output_outcome(amount, source_reserve, destination_reserve, trade_fee_rate),
    {
        if amount >= destination_reserve {
            return Err(ErrorCode::ArithmeticError);
        }
        let left = destination_reserve - amount;
        proof {
            assert(source_reserve as int * amount as int <= u64::MAX as int * u64::MAX as int)
                by (nonlinear_arith)
                requires
                    source_reserve <= u64::MAX,
                    amount <= u64::MAX,
            ;
        }
        let product: u128 = source_reserve as u128 * amount as u128;
        let required_wide: u128 = (product + (left as u128 - 1)) / left as u128;
        proof {
            lemma_ceil_input_keeps_product(
                source_reserve as int,
                destination_reserve as int,
                amount as int,
                required_wide as int,
            );
        }
        if required_wide > u64::MAX as u128 {
            proof {
                lemma_gross_up_covers(required_wide as int, trade_fee_rate as int);
            }
            return Err(ErrorCode::ArithmeticError);
        }
        let required = required_wide as u64;
        let source_wide: u128 = if trade_fee_rate == 0 {
            required as u128
        } else {
            let denom: u128 = (FEE_RATE_DENOMINATOR_VALUE - trade_fee_rate) as u128;
            (required as u128 * FEE_RATE_DENOMINATOR_VALUE as u128 + (denom - 1)) / denom
        };
        proof {
            lemma_gross_up_covers(required as int, trade_fee_rate as int);
        }
        if source_wide > u64::MAX as u128 {
            return Err(ErrorCode::ArithmeticError);
        }
        let grown = match source_reserve.checked_add(required) {
            Some(g) => g,
            None => {
                return Err(ErrorCode::ArithmeticError);
            },
        };
        if !Self::keeps_product(source_reserve, destination_reserve, grown, left) {
            return Err(ErrorCode::InvariantViolation);
        }
        let source_amount = source_wide as u64;
        Ok(
            SwapResult {
                source_amount,
                destination_amount: amount,
                trade_fee: source_amount - required,
            },
        )
    }

    /// A trade in `direction` against the virtual reserves of the listed
    /// asset (`mint_reserve`) and the reference asset (`usdc_reserve`);
    /// `amount_specified` is the input when `is_exact_in`, else the output.
    pub fn swap(
        direction: TradeDirection,
        amount_specified: u64,
        is_exact_in: bool,
        mint_reserve: u64,
        usdc_reserve: u64,
        trade_fee_rate: u64,
    ) -> (r: Result<SwapResult, ErrorCode>)
        requires
            trade_fee_rate < FEE_RATE_DENOMINATOR_VALUE,
        ensures
            r == swap_outcome(
                direction,
                amount_specified,
                is_exact_in,
                mint_reserve,
                usdc_reserve,
                trade_fee_rate,
            ),
    {
        let (source_reserve, destination_reserve) = match direction {
            TradeDirection::MintToUsdc => (mint_reserve, usdc_reserve),
            TradeDirection::UsdcToMint => (usdc_reserve, mint_reserve),
        };
        if is_exact_in {
            Self::swap_base_input(amount_specified, source_reserve, destination_reserve, trade_fee_rate)
        } else {
            Self::swap_base_output(amount_specified, source_reserve, destination_reserve, trade_fee_rate)
        }
    }

    /// Checks that a pool can be seeded with `initial_amount` of the listed
    /// asset against a virtual reference reserve of `offset`: both must be
    /// non-zero, so that the starting price is defined and positive.
    pub fn validate_supply(initial_amount: u64, offset: u64) -> (r: Result<(), ErrorCode>)
        ensures
            r is Ok <==> supply_is_valid(initial_amount, offset),
            r is Err ==> r == Err::<(), ErrorCode>(ErrorCode::InvalidInput),
    {
        if initial_amount == 0 || offset == 0 {
            return Err(ErrorCode::InvalidInput);
        }
        Ok(())
    }

    /// Whether moving the reserves from `(x, y)` to `(new_x, new_y)` keeps
    /// their product from falling.
    fn keeps_product(x: u64, y: u64, new_x: u64, new_y: u64) -> (r: bool)
        ensures
            r == (new_x as int * new_y as int >= x as int * y as int),
    {
        proof {
            assert(x as int * y as int <= u64::MAX as int * u64::MAX as int) by (nonlinear_arith)
                requires
                    x <= u64::MAX,
                    y <= u64::MAX,
            ;
            assert(new_x as int * new_y as int <= u64::MAX as int * u64::MAX as int)
                by (nonlinear_arith)
                requires
                    new_x <= u64::MAX,
                    new_y <= u64::MAX,
            ;
        }
        new_x as u128 * new_y as u128 >= x as u128 * y as u128
    }
}

} // verus!
