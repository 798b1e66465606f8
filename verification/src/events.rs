//! The notifications that the token and the controller leave behind.
//!
//! Every operation that goes through appends what it did to a log that its
//! caller hands in. The operations write to the log and never read it; an
//! operation that is refused appends nothing.

use vstd::prelude::*;
use crate::account::Address;

verus! {

/// One entry of the log.
#[derive(Clone, Copy, Debug, PartialEq, Eq, Structural)]
pub enum Event {
    /// The feed accepted a report of the oracle.
    PriceUpdated { price: i128, nonce: u64, ledger: u32 },
    /// The feed accepted an override of the owner.
    PriceOverride { price: i128, nonce: u64, ledger: u32 },
    /// The owner minted `amount` to `to`.
    Mint { to: Address, amount: i128 },
    /// The oracle minted `amount` to `to`.
    OracleMint { to: Address, amount: i128 },
    /// `from` burnt `amount` to pay for compute.
    BurnForCompute { from: Address, amount: i128 },
    /// The controller was initialised for this token and pool.
    Initialized { joule_token: Address, pool: Address },
    /// The oracle set the price of the quote asset.
    QuotePriceSet { price: i128 },
    /// The oracle forwarded a price of the base token to the feed.
    PriceForwarded { price: i128, nonce: u64 },
    /// `from` funded the controller with `amount` of the quote asset.
    Funded { from: Address, amount: i128 },
    /// The owner withdrew `amount` of `token` to `to`.
    Withdraw { token: Address, to: Address, amount: i128 },
    /// The owner named a new oracle.
    OracleChanged { oracle: Address },
    /// The owner pointed the controller at another pool.
    PoolChanged { pool: Address, router: Address, pool_fee: u32 },
    /// The owner set the bands and the budgets.
    ParamsUpdated { upper_bps: u32, lower_bps: u32, max_mint: i128, max_quote_spend: i128 },
    /// The owner set how old an oracle price may be.
    MaxStaleChanged { max_stale_ledgers: u32 },
    /// A swap brought less than the floor under its expectation. The trade
    /// stands all the same.
    SlippageWarning { received: i128, expected: i128, min_acceptable: i128 },
    /// A rebalance minted `mint_amount` and sold it for `received` of the
    /// quote asset, on a pool with the given reserves.
    RebalanceMint { mint_amount: i128, received: i128, reserve_quote: i128, reserve_joule: i128 },
    /// A rebalance spent `quote_spent` and bought `received` base tokens, on
    /// a pool with the given reserves.
    RebalanceBuyback {
        quote_spent: i128,
        received: i128,
        reserve_quote: i128,
        reserve_joule: i128,
    },
}

} // verus!
