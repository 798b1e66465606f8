//! The arithmetic of the peg: how far a pool's price stands from the oracle's,
//! and how large a trade brings it back.
//!
//! All prices are fixed-point with seven decimals. Every function here is
//! total: it answers `None` exactly where one of the intermediate values that
//! its formula names leaves the signed 128-bit range, or a divisor is zero.
//! The formulas themselves are the spec functions, stated over the integers.

use vstd::prelude::*;
use crate::math::{div, in_i128, isqrt, lemma_sqrt_floor_at_least, sqrt_floor, trunc_div};

verus! {

/// One hundred percent, in basis points.
pub const BPS: i128 = 10_000;

/// The share of the oracle-implied proceeds, in percent, below which a swap
/// counts as badly filled.
pub const SLIPPAGE_FLOOR_PERCENT: i128 = 80;

/// Where the pool's price stands relative to the band around the oracle's.
#[derive(Clone, Copy, Debug, PartialEq, Eq, Structural)]
pub enum Deviation {
    /// The pool values the base token above the upper band: supply must grow.
    Overpriced,
    /// The pool values the base token below the lower band: supply must shrink.
    Underpriced,
    /// The pool's price lies within the band, its two edges counted in.
    InBand,
}

/// The pool's side of the comparison: the quote reserve's value, scaled to
/// basis points.
pub open spec fn pool_value(reserve_quote: int, quote_usd: int) -> int {
    reserve_quote * quote_usd * 10_000
}

/// The oracle's side of the comparison: the base reserve's value at the
/// oracle price, scaled by `factor` basis points.
pub open spec fn oracle_value(joule_usd: int, reserve_joule: int, factor: int) -> int {
    joule_usd * reserve_joule * factor
}

/// The comparison of the two sides, over the integers.
pub open spec fn spec_deviation(
    reserve_quote: int,
    reserve_joule: int,
    quote_usd: int,
    joule_usd: int,
    upper_bps: int,
    lower_bps: int,
) -> Deviation {
    let lhs = pool_value(reserve_quote, quote_usd);
    if lhs > oracle_value(joule_usd, reserve_joule, 10_000 + upper_bps) {
        Deviation::Overpriced
    } else if lhs < oracle_value(joule_usd, reserve_joule, 10_000 - lower_bps) {
        Deviation::Underpriced
    } else {
        Deviation::InBand
    }
}

/// Every product that the comparison forms fits in 128 bits.
pub open spec fn deviation_fits(
    reserve_quote: int,
    reserve_joule: int,
    quote_usd: int,
    joule_usd: int,
    upper_bps: int,
    lower_bps: int,
) -> bool {
    &&& in_i128(reserve_quote * quote_usd)
    &&& in_i128(pool_value(reserve_quote, quote_usd))
    &&& in_i128(joule_usd * reserve_joule)
    &&& in_i128(oracle_value(joule_usd, reserve_joule, 10_000 + upper_bps))
    &&& in_i128(oracle_value(joule_usd, reserve_joule, 10_000 - lower_bps))
}

/// Compares the pool's price with the band around the oracle's price, by
/// multiplication only.
pub fn deviation(
    reserve_quote: i128,
    reserve_joule: i128,
    quote_usd: i128,
    joule_usd: i128,
    upper_bps: u32,
    lower_bps: u32,
) -> (r: Option<Deviation>)
    ensures
        r == (if deviation_fits(
            reserve_quote as int,
            reserve_joule as int,
            quote_usd as int,
            joule_usd as int,
            upper_bps as int,
            lower_bps as int,
        ) {
            Some(
                spec_deviation(
                    reserve_quote as int,
                    reserve_joule as int,
                    quote_usd as int,
                    joule_usd as int,
                    upper_bps as int,
                    lower_bps as int,
                ),
            )
        } else {
            None
        }),
{
    let quote_value: i128 = reserve_quote.checked_mul(quote_usd)?;
    let lhs: i128 = quote_value.checked_mul(BPS)?;
    let joule_value: i128 = joule_usd.checked_mul(reserve_joule)?;
    let rhs_upper: i128 = joule_value.checked_mul(BPS + upper_bps as i128)?;
    let rhs_lower: i128 = joule_value.checked_mul(BPS - lower_bps as i128)?;
    if lhs > rhs_upper {
        Some(Deviation::Overpriced)
    } else if lhs < rhs_lower {
        Some(Deviation::Underpriced)
    } else {
        Some(Deviation::InBand)
    }
}

/// The price the mint aims at: midway into the upper band, scaled to basis
/// points.
pub open spec fn mint_target_price(joule_usd: int, upper_bps: int) -> int {
    joule_usd * (10_000 + upper_bps / 2)
}

/// The base reserve at which the pool would trade at the mint's target price,
/// less the base reserve it has: what a mint would have to add.
pub open spec fn spec_mint_amount(
    reserve_quote: int,
    reserve_joule: int,
    quote_usd: int,
    joule_usd: int,
    upper_bps: int,
) -> int {
    trunc_div(pool_value(reserve_quote, quote_usd), mint_target_price(joule_usd, upper_bps))
        - reserve_joule
}

/// Every value that the mint's formula forms fits in 128 bits, and its
/// divisor is not zero.
pub open spec fn mint_amount_fits(
    reserve_quote: int,
    reserve_joule: int,
    quote_usd: int,
    joule_usd: int,
    upper_bps: int,
) -> bool {
    let price = mint_target_price(joule_usd, upper_bps);
    let value = pool_value(reserve_quote, quote_usd);
    &&& in_i128(price)
    &&& price != 0
    &&& in_i128(reserve_quote * quote_usd)
    &&& in_i128(value)
    &&& in_i128(trunc_div(value, price))
    &&& in_i128(trunc_div(value, price) - reserve_joule)
}

/// Sizes the mint that moves the pool to the middle of the upper band. The
/// result is not yet capped and may be zero or negative.
pub fn mint_amount(
    reserve_quote: i128,
    reserve_joule: i128,
    quote_usd: i128,
    joule_usd: i128,
    upper_bps: u32,
) -> (r: Option<i128>)
    ensures
        r == (if mint_amount_fits(
            reserve_quote as int,
            reserve_joule as int,
            quote_usd as int,
            joule_usd as int,
            upper_bps as int,
        ) {
            Some(
                spec_mint_amount(
                    reserve_quote as int,
                    reserve_joule as int,
                    quote_usd as int,
                    joule_usd as int,
                    upper_bps as int,
                ) as i128,
            )
        } else {
            None
        }),
{
    let target_price: i128 = joule_usd.checked_mul(BPS + upper_bps as i128 / 2)?;
    let quote_value: i128 = reserve_quote.checked_mul(quote_usd)?;
    let value: i128 = quote_value.checked_mul(BPS)?;
    let target_reserve: i128 = div(value, target_price)?;
    target_reserve.checked_sub(reserve_joule)
}

/// The quote reserve at which a constant-product pool would trade at the
/// oracle price, less the quote reserve it has: what a buyback would have to
/// pay in.
pub open spec fn spec_buyback_amount(
    reserve_quote: int,
    reserve_joule: int,
    quote_usd: int,
    joule_usd: int,
) -> int {
    sqrt_floor(trunc_div(reserve_quote * reserve_joule * joule_usd, quote_usd)) - reserve_quote
}

/// Every value that the buyback's formula forms fits in 128 bits, and its
/// divisor is not zero.
pub open spec fn buyback_amount_fits(
    reserve_quote: int,
    reserve_joule: int,
    quote_usd: int,
    joule_usd: int,
) -> bool {
    let k = reserve_quote * reserve_joule;
    &&& in_i128(k)
    &&& in_i128(k * joule_usd)
    &&& quote_usd != 0
    &&& in_i128(trunc_div(k * joule_usd, quote_usd))
    &&& in_i128(sqrt_floor(trunc_div(k * joule_usd, quote_usd)) - reserve_quote)
}

/// Sizes the buyback that restores the oracle price in a constant-product
/// pool. The result is not yet capped and may be zero or negative.
pub fn buyback_amount(
    reserve_quote: i128,
    reserve_joule: i128,
    quote_usd: i128,
    joule_usd: i128,
) -> (r: Option<i128>)
    ensures
        r == (if buyback_amount_fits(
            reserve_quote as int,
            reserve_joule as int,
            quote_usd as int,
            joule_usd as int,
        ) {
            Some(
                spec_buyback_amount(
                    reserve_quote as int,
                    reserve_joule as int,
                    quote_usd as int,
                    joule_usd as int,
                ) as i128,
            )
        } else {
            None
        }),
{
    let k: i128 = reserve_quote.checked_mul(reserve_joule)?;
    let scaled: i128 = k.checked_mul(joule_usd)?;
    let target_square: i128 = div(scaled, quote_usd)?;
    let target_reserve_quote: i128 = isqrt(target_square);
    target_reserve_quote.checked_sub(reserve_quote)
}

/// A sized trade held to its budget: nothing for a size that is not
/// positive, otherwise the size or the cap, whichever is smaller.
pub open spec fn spec_capped(raw: i128, cap: i128) -> Option<i128> {
    if raw <= 0 {
        None
    } else if raw > cap {
        Some(cap)
    } else {
        Some(raw)
    }
}

/// Holds a sized trade to its per-call budget.
pub fn capped(raw: i128, cap: i128) -> (r: Option<i128>)
    ensures
        r == spec_capped(raw, cap),
{
    if raw <= 0 {
        None
    } else if raw > cap {
        Some(cap)
    } else {
        Some(raw)
    }
}

/// What a trade of `amount` should bring at oracle prices: `amount` valued at
/// `price_in` and expressed in units priced at `price_out`.
pub open spec fn spec_expected_out(amount: int, price_in: int, price_out: int) -> int {
    trunc_div(amount * price_in, price_out)
}

/// The least proceeds that count as a fair fill of an expectation.
pub open spec fn spec_min_acceptable(expected: int) -> int {
    trunc_div(expected * 80, 100)
}

/// Every value that the expectation and its floor form fits in 128 bits, and
/// the price divided by is not zero.
pub open spec fn expectation_fits(amount: int, price_in: int, price_out: int) -> bool {
    &&& in_i128(amount * price_in)
    &&& price_out != 0
    &&& in_i128(spec_expected_out(amount, price_in, price_out))
    &&& in_i128(spec_expected_out(amount, price_in, price_out) * 80)
}

/// The oracle-implied proceeds of a trade and the floor under them, in this
/// order.
pub fn expectation(amount: i128, price_in: i128, price_out: i128) -> (r: Option<(i128, i128)>)
    ensures
        r == (if expectation_fits(amount as int, price_in as int, price_out as int) {
            Some(
                (
                    spec_expected_out(amount as int, price_in as int, price_out as int) as i128,
                    spec_min_acceptable(
                        spec_expected_out(amount as int, price_in as int, price_out as int),
                    ) as i128,
                ),
            )
        } else {
            None
        }),
{
    let value: i128 = amount.checked_mul(price_in)?;
    let expected: i128 = div(value, price_out)?;
    let scaled: i128 = expected.checked_mul(SLIPPAGE_FLOOR_PERCENT)?;
    let floor: i128 = scaled / 100;
    Some((expected, floor))
}

/// The price of the base token that the pool's reserves imply.
pub open spec fn spec_pool_price(reserve_quote: int, reserve_joule: int, quote_usd: int) -> int {
    trunc_div(reserve_quote * quote_usd, reserve_joule)
}

/// How far `pool_price` stands from `joule_usd`, in basis points of
/// `joule_usd`, rounded toward zero.
pub open spec fn spec_deviation_bps(pool_price: int, joule_usd: int) -> int {
    trunc_div((pool_price - joule_usd) * 10_000, joule_usd)
}

/// Every value that the pool price and its deviation form fits in 128 bits,
/// and neither divisor is zero.
pub open spec fn pool_price_fits(
    reserve_quote: int,
    reserve_joule: int,
    quote_usd: int,
    joule_usd: int,
) -> bool {
    let price = spec_pool_price(reserve_quote, reserve_joule, quote_usd);
    &&& in_i128(reserve_quote * quote_usd)
    &&& reserve_joule != 0
    &&& in_i128(price)
    &&& in_i128(price - joule_usd)
    &&& in_i128((price - joule_usd) * 10_000)
    &&& joule_usd != 0
    &&& in_i128(spec_deviation_bps(price, joule_usd))
}

/// The pool-implied price of the base token and its deviation from the
/// oracle price in basis points, in this order.
pub fn pool_price(
    reserve_quote: i128,
    reserve_joule: i128,
    quote_usd: i128,
    joule_usd: i128,
) -> (r: Option<(i128, i128)>)
    ensures
        r == (if pool_price_fits(
            reserve_quote as int,
            reserve_joule as int,
            quote_usd as int,
            joule_usd as int,
        ) {
            Some(
                (
                    spec_pool_price(reserve_quote as int, reserve_joule as int, quote_usd as int) as i128,
                    spec_deviation_bps(
                        spec_pool_price(
                            reserve_quote as int,
                            reserve_joule as int,
                            quote_usd as int,
                        ),
                        joule_usd as int,
                    ) as i128,
                ),
            )
        } else {
            None
        }),
{
    let value: i128 = reserve_quote.checked_mul(quote_usd)?;
    let price: i128 = div(value, reserve_joule)?;
    let gap: i128 = price.checked_sub(joule_usd)?;
    let scaled: i128 = gap.checked_mul(BPS)?;
    let deviation_bps: i128 = div(scaled, joule_usd)?;
    Some((price, deviation_bps))
}

/// The band counts its edges in: a pool whose value stands exactly on the
/// upper or on the lower edge is in band, and one unit beyond either edge it
/// is out, on the side of that edge.
pub proof fn law_band_edges(
    reserve_quote: int,
    reserve_joule: int,
    quote_usd: int,
    joule_usd: int,
    upper_bps: int,
    lower_bps: int,
)
    requires
        0 <= joule_usd,
        0 <= reserve_joule,
        0 <= upper_bps,
        0 <= lower_bps,
    ensures
        pool_value(reserve_quote, quote_usd) == oracle_value(
            joule_usd,
            reserve_joule,
            10_000 + upper_bps,
        ) ==> spec_deviation(
            reserve_quote,
            reserve_joule,
            quote_usd,
            joule_usd,
            upper_bps,
            lower_bps,
        ) == Deviation::InBand,
        pool_value(reserve_quote, quote_usd) == oracle_value(
            joule_usd,
            reserve_joule,
            10_000 - lower_bps,
        ) ==> spec_deviation(
            reserve_quote,
            reserve_joule,
            quote_usd,
            joule_usd,
            upper_bps,
            lower_bps,
        ) == Deviation::InBand,
        pool_value(reserve_quote, quote_usd) == oracle_value(
            joule_usd,
            reserve_joule,
            10_000 + upper_bps,
        ) + 1 ==> spec_deviation(
            reserve_quote,
            reserve_joule,
            quote_usd,
            joule_usd,
            upper_bps,
            lower_bps,
        ) == Deviation::Overpriced,
        pool_value(reserve_quote, quote_usd) == oracle_value(
            joule_usd,
            reserve_joule,
            10_000 - lower_bps,
        ) - 1 ==> spec_deviation(
            reserve_quote,
            reserve_joule,
            quote_usd,
            joule_usd,
            upper_bps,
            lower_bps,
        ) == Deviation::Underpriced,
{
    let held = joule_usd * reserve_joule;
    assert(0 <= held) by (nonlinear_arith)
        requires
            0 <= joule_usd,
            0 <= reserve_joule,
            held == joule_usd * reserve_joule,
    ;
    assert(held * (10_000 - lower_bps) <= held * (10_000 + upper_bps)) by (nonlinear_arith)
        requires
            0 <= held,
            0 <= upper_bps,
            0 <= lower_bps,
    ;
}

/// The mint agrees with the comparison that calls for it: where the pool
/// stands above the upper band, the base reserve that the mint aims at is no
/// smaller than the one the pool has, so that the sized mint is not negative.
pub proof fn law_mint_not_negative(
    reserve_quote: int,
    reserve_joule: int,
    quote_usd: int,
    joule_usd: int,
    upper_bps: int,
    lower_bps: int,
)
    requires
        0 < joule_usd,
        0 <= reserve_joule,
        0 <= upper_bps,
        spec_deviation(reserve_quote, reserve_joule, quote_usd, joule_usd, upper_bps, lower_bps)
            == Deviation::Overpriced,
    ensures
        0 <= spec_mint_amount(reserve_quote, reserve_joule, quote_usd, joule_usd, upper_bps),
{
    let value = pool_value(reserve_quote, quote_usd);
    let price = mint_target_price(joule_usd, upper_bps);
    let half = upper_bps / 2;
    assert(0 <= half <= upper_bps);
    assert(0 < price) by (nonlinear_arith)
        requires
            0 < joule_usd,
            0 <= half,
            price == joule_usd * (10_000 + half),
    ;
    assert(price * reserve_joule <= joule_usd * reserve_joule * (10_000 + upper_bps))
        by (nonlinear_arith)
        requires
            0 < joule_usd,
            0 <= reserve_joule,
            0 <= half <= upper_bps,
            price == joule_usd * (10_000 + half),
    ;
    assert(0 <= price * reserve_joule) by (nonlinear_arith)
        requires
            0 < price,
            0 <= reserve_joule,
    ;
    assert(reserve_joule <= value / price) by (nonlinear_arith)
        requires
            0 < price,
            price * reserve_joule <= value,
    ;
}

/// The buyback agrees with the comparison that calls for it: where the pool
/// stands below the lower band, the quote reserve that the buyback aims at is
/// no smaller than the one the pool has, so that the sized spend is not
/// negative.
pub proof fn law_buyback_not_negative(
    reserve_quote: int,
    reserve_joule: int,
    quote_usd: int,
    joule_usd: int,
    upper_bps: int,
    lower_bps: int,
)
    requires
        0 < quote_usd,
        0 <= joule_usd,
        0 <= reserve_quote,
        0 <= reserve_joule,
        0 <= lower_bps,
        spec_deviation(reserve_quote, reserve_joule, quote_usd, joule_usd, upper_bps, lower_bps)
            == Deviation::Underpriced,
    ensures
        0 <= spec_buyback_amount(reserve_quote, reserve_joule, quote_usd, joule_usd),
{
    let held = joule_usd * reserve_joule;
    let paid = reserve_quote * quote_usd;
    assert(0 <= held) by (nonlinear_arith)
        requires
            0 <= joule_usd,
            0 <= reserve_joule,
            held == joule_usd * reserve_joule,
    ;
    assert(held * (10_000 - lower_bps) <= held * 10_000) by (nonlinear_arith)
        requires
            0 <= held,
            0 <= lower_bps,
    ;
    // The pool's quote side is worth less than its base side.
    assert(paid * 10_000 < held * 10_000);
    assert(paid <= held);
    let scaled = reserve_quote * reserve_joule * joule_usd;
    assert(reserve_quote * reserve_quote * quote_usd <= scaled) by (nonlinear_arith)
        requires
            0 <= reserve_quote,
            reserve_quote * quote_usd <= joule_usd * reserve_joule,
            scaled == reserve_quote * reserve_joule * joule_usd,
    ;
    assert(0 <= reserve_quote * reserve_quote) by (nonlinear_arith);
    assert(0 <= scaled) by (nonlinear_arith)
        requires
            0 <= reserve_quote * reserve_quote,
            0 < quote_usd,
            reserve_quote * reserve_quote * quote_usd <= scaled,
    ;
    let target = scaled / quote_usd;
    assert(reserve_quote * reserve_quote <= target) by (nonlinear_arith)
        requires
            0 < quote_usd,
            reserve_quote * reserve_quote * quote_usd <= scaled,
            target == scaled / quote_usd,
    ;
    assert(trunc_div(scaled, quote_usd) == target);
    lemma_sqrt_floor_at_least(target, reserve_quote);
}

/// A trade held to its budget never exceeds the budget, and is positive
/// where the budget is.
pub proof fn law_capped_within_budget(raw: i128, cap: i128)
    ensures
        spec_capped(raw, cap) matches Some(amount) ==> amount <= cap && (cap > 0 ==> amount > 0),
        spec_capped(raw, cap) is None <==> raw <= 0,
{
}

} // verus!
