//! The price feed's record and its three rules: nonces only go up, prices
//! stay within the configured bounds, and no report may move the price by
//! more than a fixed share of the price before it.

use vstd::prelude::*;
use crate::math::{abs_diff, distance};
use crate::token::{JouleError, JouleToken};

verus! {

/// The price that the feed currently holds. A report replaces the whole
/// record; no field is ever changed in place.
#[derive(Clone, Copy, Debug, PartialEq, Eq, Structural)]
pub struct PriceData {
    /// Price of the base token in seven-decimal fixed point (7630 stands for
    /// 0.000763).
    pub price: i128,
    /// The number of the report that set the price. Each accepted report
    /// carries a higher one than the last.
    pub nonce: u64,
    /// The ledger at which the report was accepted.
    pub ledger: u32,
}

/// Lowest acceptable price until the owner sets another: 0.0001.
pub const DEFAULT_PRICE_FLOOR: i128 = 1_000;

/// Highest acceptable price until the owner sets another: 0.01.
pub const DEFAULT_PRICE_CEILING: i128 = 100_000;

/// Largest amount the oracle may mint in one call until the owner sets
/// another: 10,000 tokens at seven decimals.
pub const DEFAULT_MINT_CAP: i128 = 100_000_000_000;

/// Largest move of the price that one report may make, in basis points of
/// the price before it.
pub const MAX_SWING_BPS: i128 = 2_000;

/// One hundred percent, in basis points.
pub const SWING_SCALE: i128 = 10_000;

/// The nonce of the last accepted report, and 0 before the first.
pub open spec fn spec_nonce(token: JouleToken) -> u64 {
    match token.price {
        Some(data) => data.nonce,
        None => 0,
    }
}

/// `price` lies between `floor` and `ceiling`, both counted in.
pub open spec fn within_bounds(floor: int, ceiling: int, price: int) -> bool {
    floor <= price <= ceiling
}

/// The move from `old_price` to `new_price` is larger than the circuit
/// breaker allows. The two sides are compared as products, so that nothing
/// is lost to rounding, and a move of exactly the allowed share passes.
pub open spec fn swing_exceeded(old_price: int, new_price: int) -> bool {
    distance(new_price, old_price) * 10_000 > MAX_SWING_BPS * old_price
}

/// The record that the feed holds, if a price has been reported yet.
pub fn get_price_data(token: &JouleToken) -> (r: Option<PriceData>)
    ensures
        r == token.price,
{
    token.price
}

/// Replaces the feed's record, unjudged: the rules of the feed are those of
/// `JouleToken::set_price` and `JouleToken::owner_set_price`, which store
/// through this function what they have accepted. The nonce and the ledger
/// of the feed are those of the record.
pub fn set_price_data(token: &mut JouleToken, data: &PriceData)
    ensures
        *final(token) == (JouleToken { price: Some(*data), ..*old(token) }),
{
    token.price = Some(*data);
}

/// The nonce of the last accepted report, and 0 before the first.
pub fn get_nonce(token: &JouleToken) -> (n: u64)
    ensures
        n == spec_nonce(*token),
{
    match token.price {
        Some(data) => data.nonce,
        None => 0,
    }
}

/// The largest amount the oracle may mint in one call.
pub fn get_mint_cap(token: &JouleToken) -> (cap: i128)
    ensures
        cap == token.mint_cap,
{
    token.mint_cap
}

/// The lowest price the feed accepts.
pub fn get_price_floor(token: &JouleToken) -> (floor: i128)
    ensures
        floor == token.price_floor,
{
    token.price_floor
}

/// The highest price the feed accepts.
pub fn get_price_ceiling(token: &JouleToken) -> (ceiling: i128)
    ensures
        ceiling == token.price_ceiling,
{
    token.price_ceiling
}

/// Checks a price against the feed's floor and ceiling.
pub fn check_bounds(token: &JouleToken, price: i128) -> (r: Result<(), JouleError>)
    ensures
        within_bounds(token.price_floor as int, token.price_ceiling as int, price as int) ==> r
            is Ok,
        !within_bounds(token.price_floor as int, token.price_ceiling as int, price as int) ==> r
            == Err::<(), JouleError>(JouleError::PriceOutOfBounds),
{
    let floor = get_price_floor(token);
    let ceiling = get_price_ceiling(token);
    if price < floor || price > ceiling {
        return Err(JouleError::PriceOutOfBounds);
    }
    Ok(())
}

/// The circuit breaker: refuses a price that lies further from the price
/// before it than `MAX_SWING_BPS` basis points of that price.
///
/// The answer is that of the comparison of the two products over the
/// integers, for every pair of prices; it is computed without forming a
/// product, so that no pair of prices is out of its reach.
pub fn check_circuit_breaker(old_price: i128, new_price: i128) -> (r: Result<(), JouleError>)
    ensures
        !swing_exceeded(old_price as int, new_price as int) ==> r is Ok,
        swing_exceeded(old_price as int, new_price as int) ==> r == Err::<(), JouleError>(
            JouleError::CircuitBreakerTripped,
        ),
{
    let diff: u128 = abs_diff(new_price, old_price);
    if old_price < 0 {
        // Nothing is within a share of a negative price.
        return Err(JouleError::CircuitBreakerTripped);
    }
    // diff * SWING_SCALE > MAX_SWING_BPS * old_price, with both sides
    // divided by MAX_SWING_BPS, which divides SWING_SCALE.
    let allowed: u128 = (old_price / (SWING_SCALE / MAX_SWING_BPS)) as u128;
    if diff > allowed {
        return Err(JouleError::CircuitBreakerTripped);
    }
    Ok(())
}

/// A move of exactly the allowed share passes the circuit breaker, and a
/// move of one basis point more does not.
pub proof fn law_swing_boundary(old_price: int, new_price: int)
    requires
        old_price > 0,
    ensures
        distance(new_price, old_price) * 10_000 == MAX_SWING_BPS * old_price ==> !swing_exceeded(
            old_price,
            new_price,
        ),
        distance(new_price, old_price) * 10_000 == (MAX_SWING_BPS + 1) * old_price
            ==> swing_exceeded(old_price, new_price),
{
}

} // verus!
