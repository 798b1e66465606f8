//! What the controller hands to the pool for one exchange, and how it reads
//! what the pool reports back.
//!
//! The pool holds two tokens, numbered 0 and 1. An exchange is described by
//! its direction (`zero_for_one`: token 0 is paid in, token 1 comes out), the
//! amount paid in and a limit on the square-root price. The pool answers with
//! two signed net amounts, one per token: positive is what the caller paid,
//! negative is what the caller received.

use vstd::prelude::*;
use crate::account::Address;
use crate::math::in_i128;

verus! {

/// Price limit handed to the pool when token 0 is sold: one above the lowest
/// square-root ratio the pool accepts.
pub const MIN_SQRT_PRICE_LIMIT: u128 = 4_295_128_740;

/// Price limit handed to the pool when token 1 is sold: above any price the
/// pool can reach.
pub const MAX_SQRT_PRICE_LIMIT: u128 = 0xffff_ffff_ffff_ffff_ffff_ffff_ffff_ffff;

/// One exchange for the pool to execute.
#[derive(Clone, Copy, Debug, PartialEq, Eq, Structural)]
pub struct SwapRequest {
    /// The token paid in.
    pub token_in: Address,
    /// The token received.
    pub token_out: Address,
    /// How much of `token_in` is paid in.
    pub amount_in: i128,
    /// Whether token 0 is the one paid in.
    pub zero_for_one: bool,
    /// The limit on the pool's square-root price for this direction.
    pub sqrt_price_limit: u128,
}

/// The direction of an exchange: token 0 is paid in exactly when the base
/// token is sold and is token 0, or is bought and is token 1.
pub open spec fn spec_zero_for_one(selling_joule: bool, joule_is_token0: bool) -> bool {
    selling_joule == joule_is_token0
}

/// The price limit that goes with a direction.
pub open spec fn spec_sqrt_price_limit(zero_for_one: bool) -> u128 {
    if zero_for_one {
        MIN_SQRT_PRICE_LIMIT
    } else {
        MAX_SQRT_PRICE_LIMIT
    }
}

/// The request that pays `amount_in` of `token_in` into a pool whose base
/// token is `joule_token`.
pub open spec fn spec_swap_request(
    joule_token: Address,
    joule_is_token0: bool,
    token_in: Address,
    token_out: Address,
    amount_in: i128,
) -> SwapRequest {
    let zero_for_one = spec_zero_for_one(token_in == joule_token, joule_is_token0);
    SwapRequest {
        token_in,
        token_out,
        amount_in,
        zero_for_one,
        sqrt_price_limit: spec_sqrt_price_limit(zero_for_one),
    }
}

/// What the caller received in an exchange: the amount reported for the
/// token that comes out, with its sign turned, and 0 if the pool reports
/// that nothing came out.
pub open spec fn spec_swap_output(zero_for_one: bool, amount0: int, amount1: int) -> int {
    let net = if zero_for_one {
        amount1
    } else {
        amount0
    };
    if net < 0 {
        -net
    } else {
        0
    }
}

/// Builds the request for one exchange. The direction follows from which
/// token is paid in and from the base token's position in the pool.
pub fn swap_request(
    joule_token: Address,
    joule_is_token0: bool,
    token_in: Address,
    token_out: Address,
    amount_in: i128,
) -> (request: SwapRequest)
    ensures
        request == spec_swap_request(joule_token, joule_is_token0, token_in, token_out, amount_in),
{
    let selling_joule = token_in == joule_token;
    let zero_for_one = if joule_is_token0 {
        selling_joule
    } else {
        !selling_joule
    };
    let sqrt_price_limit: u128 = if zero_for_one {
        MIN_SQRT_PRICE_LIMIT
    } else {
        MAX_SQRT_PRICE_LIMIT
    };
    SwapRequest { token_in, token_out, amount_in, zero_for_one, sqrt_price_limit }
}

/// Reads the amount received out of the pool's answer. `None` only where
/// that amount cannot be held: the pool reported `i128::MIN` for the token
/// that comes out.
pub fn swap_output(zero_for_one: bool, amount0: i128, amount1: i128) -> (received: Option<i128>)
    ensures
        received == (if in_i128(spec_swap_output(zero_for_one, amount0 as int, amount1 as int)) {
            Some(spec_swap_output(zero_for_one, amount0 as int, amount1 as int) as i128)
        } else {
            None
        }),
{
    let net: i128 = if zero_for_one {
        amount1
    } else {
        amount0
    };
    if net >= 0 {
        Some(0)
    } else if net == i128::MIN {
        None
    } else {
        Some(-net)
    }
}

} // verus!
