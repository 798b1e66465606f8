//! The peg controller: its stored configuration, the guards on every
//! operation, and the decision that a rebalance takes.
//!
//! The controller never talks to the ledger, the token or the pool itself.
//! Whoever drives it reads what the controller asks for, performs what it
//! orders and hands the answers back; see [`Rebalancer::rebalance`].

use vstd::prelude::*;
use crate::account::{Address, Context};
use crate::events::Event;
use crate::peg::{pool_price, pool_price_fits, spec_deviation_bps, spec_pool_price};

verus! {

/// Width of either band after initialisation, in basis points.
pub const DEFAULT_BAND_BPS: u32 = 500;

/// Largest mint per call after initialisation.
pub const DEFAULT_MAX_MINT: i128 = 100_000_000_000;

/// Largest quote spend per call after initialisation.
pub const DEFAULT_MAX_QUOTE_SPEND: i128 = 50_000_000_000;

/// Oldest oracle price, in ledgers, that a rebalance accepts after
/// initialisation.
pub const DEFAULT_MAX_STALE_LEDGERS: u32 = 1000;

/// Ledgers that must pass between two rebalances after initialisation.
pub const DEFAULT_COOLDOWN_LEDGERS: u32 = 12;

/// Smallest reserve on either side of the pool that a rebalance accepts
/// after initialisation: one token at seven decimals.
pub const DEFAULT_MIN_RESERVE: i128 = 10_000_000;

/// Why the controller refuses a call. A refused call changes nothing.
#[derive(Copy, Clone, Debug, Eq, PartialEq, PartialOrd, Ord, Structural)]
pub enum RebalancerError {
    /// The caller is not the identity that the operation is reserved for.
    Unauthorized,
    /// The pool's price is within the band, or the sized trade is not
    /// positive: there is nothing to do.
    NoRebalanceNeeded,
    /// The controller holds less quote asset than the buyback would spend.
    InsufficientQuote,
    /// A reserve of the pool is below the configured minimum.
    PoolEmpty,
    /// No price of the quote asset has been configured yet.
    QuotePriceNotSet,
    /// The controller has been initialised before.
    AlreadyInitialized,
    /// The controller has not been initialised yet.
    NotInitialized,
    /// The oracle price is older than the configured maximum.
    OracleStale,
    /// The last rebalance is more recent than the cooldown allows.
    CooldownActive,
    /// The pool did not execute the exchange.
    SwapFailed,
    /// The exchange brought less than was acceptable.
    SwapSlippage,
}

impl RebalancerError {
    /// The number under which the error is reported on the wire.
    pub open spec fn spec_code(self) -> u32 {
        match self {
            RebalancerError::Unauthorized => 1,
            RebalancerError::NoRebalanceNeeded => 2,
            RebalancerError::InsufficientQuote => 3,
            RebalancerError::PoolEmpty => 4,
            RebalancerError::QuotePriceNotSet => 5,
            RebalancerError::AlreadyInitialized => 6,
            RebalancerError::NotInitialized => 7,
            RebalancerError::OracleStale => 8,
            RebalancerError::CooldownActive => 9,
            RebalancerError::SwapFailed => 10,
            RebalancerError::SwapSlippage => 11,
        }
    }

    /// The number under which the error is reported on the wire.
    pub fn code(self) -> (n: u32)
        ensures
            n == self.spec_code(),
    {
        match self {
            RebalancerError::Unauthorized => 1,
            RebalancerError::NoRebalanceNeeded => 2,
            RebalancerError::InsufficientQuote => 3,
            RebalancerError::PoolEmpty => 4,
            RebalancerError::QuotePriceNotSet => 5,
            RebalancerError::AlreadyInitialized => 6,
            RebalancerError::NotInitialized => 7,
            RebalancerError::OracleStale => 8,
            RebalancerError::CooldownActive => 9,
            RebalancerError::SwapFailed => 10,
            RebalancerError::SwapSlippage => 11,
        }
    }
}

/// The pool's price set against the oracle's.
#[derive(Clone, Copy, Debug, PartialEq, Eq, Structural)]
pub struct PoolStatus {
    pub reserve_quote: i128,
    pub reserve_joule: i128,
    /// The price of the base token that the reserves imply.
    pub pool_joule_usd_x7: i128,
    /// The price of the base token that the oracle reports.
    pub oracle_joule_usd_x7: i128,
    /// The configured price of the quote asset.
    pub quote_usd_x7: i128,
    /// The pool's price less the oracle's, in basis points of the oracle's.
    pub deviation_bps: i128,
}

/// Everything the controller is configured with.
#[derive(Clone, Copy, Debug, PartialEq, Eq, Structural)]
pub struct Config {
    /// The base token, whose supply the controller expands and contracts.
    pub joule_token: Address,
    /// The pool that the controller trades against.
    pub pool: Address,
    /// The asset that the pool quotes the base token in.
    pub quote_token: Address,
    /// The identity allowed to set prices and to rebalance.
    pub oracle: Address,
    /// The identity allowed to administer the controller.
    pub owner: Address,
    /// The price of the quote asset; 0 until one is configured.
    pub quote_price: i128,
    pub upper_bps: u32,
    pub lower_bps: u32,
    pub max_mint: i128,
    pub max_quote_spend: i128,
    /// Whether the base token is the pool's token 0.
    pub joule_is_token0: bool,
    pub max_stale_ledgers: u32,
    pub cooldown_ledgers: u32,
    pub min_reserve: i128,
    pub router: Address,
    pub pool_fee: u32,
}

impl Config {
    /// The bounds that every stored configuration keeps: both bands lie
    /// strictly between 0 and 100 percent, every budget, interval and minimum
    /// is positive, and the quote price is positive once it is set.
    pub open spec fn wf(&self) -> bool {
        &&& self.quote_price >= 0
        &&& 0 < self.upper_bps < 10_000
        &&& 0 < self.lower_bps < 10_000
        &&& self.max_mint > 0
        &&& self.max_quote_spend > 0
        &&& self.max_stale_ledgers > 0
        &&& self.cooldown_ledgers > 0
        &&& self.min_reserve > 0
    }
}

/// The given band widths, budgets, interval and minimum are ones that a
/// configuration may hold.
pub open spec fn params_valid(
    upper_bps: u32,
    lower_bps: u32,
    max_mint: i128,
    max_quote_spend: i128,
    cooldown_ledgers: u32,
    min_reserve: i128,
) -> bool {
    &&& 0 < upper_bps < 10_000
    &&& 0 < lower_bps < 10_000
    &&& max_mint > 0
    &&& max_quote_spend > 0
    &&& cooldown_ledgers > 0
    &&& min_reserve > 0
}

/// The state that the controller keeps between calls.
#[derive(Clone, Copy, Debug, PartialEq, Eq, Structural)]
pub struct Rebalancer {
    /// The configuration; `None` until the controller is initialised.
    pub config: Option<Config>,
    /// The ledger of the last rebalance that went through; 0 if none did.
    pub last_rebalance_ledger: u32,
}

impl Rebalancer {
    /// The stored configuration keeps its bounds.
    pub open spec fn wf(&self) -> bool {
        self.config matches Some(c) ==> c.wf()
    }

    /// The configuration that initialisation stores.
    pub open spec fn initial_config(
        joule_token: Address,
        pool: Address,
        quote_token: Address,
        oracle: Address,
        owner: Address,
        joule_is_token0: bool,
        router: Address,
        pool_fee: u32,
    ) -> Config {
        Config {
            joule_token,
            pool,
            quote_token,
            oracle,
            owner,
            quote_price: 0,
            upper_bps: DEFAULT_BAND_BPS,
            lower_bps: DEFAULT_BAND_BPS,
            max_mint: DEFAULT_MAX_MINT,
            max_quote_spend: DEFAULT_MAX_QUOTE_SPEND,
            joule_is_token0,
            max_stale_ledgers: DEFAULT_MAX_STALE_LEDGERS,
            cooldown_ledgers: DEFAULT_COOLDOWN_LEDGERS,
            min_reserve: DEFAULT_MIN_RESERVE,
            router,
            pool_fee,
        }
    }

    /// What an operation reserved for the oracle answers before it does
    /// anything else: the configuration, or the reason for refusing.
    pub open spec fn oracle_gate(&self, ctx: Context) -> Result<Config, RebalancerError> {
        match self.config {
            None => Err(RebalancerError::NotInitialized),
            Some(c) => if ctx.caller == c.oracle {
                Ok(c)
            } else {
                Err(RebalancerError::Unauthorized)
            },
        }
    }

    /// What an operation reserved for the owner answers before it does
    /// anything else: the configuration, or the reason for refusing.
    pub open spec fn owner_gate(&self, ctx: Context) -> Result<Config, RebalancerError> {
        match self.config {
            None => Err(RebalancerError::NotInitialized),
            Some(c) => if ctx.caller == c.owner {
                Ok(c)
            } else {
                Err(RebalancerError::Unauthorized)
            },
        }
    }

    /// A controller that has not been initialised.
    pub fn new() -> (r: Rebalancer)
        ensures
            r == (Rebalancer { config: None, last_rebalance_ledger: 0 }),
            r.wf(),
    {
        Rebalancer { config: None, last_rebalance_ledger: 0 }
    }

    /// Checks that the controller is initialised.
    pub fn require_initialized(&self) -> (r: Result<Config, RebalancerError>)
        ensures
            r == (match self.config {
                Some(c) => Ok::<Config, RebalancerError>(c),
                None => Err::<Config, RebalancerError>(RebalancerError::NotInitialized),
            }),
    {
        match self.config {
            Some(c) => Ok(c),
            None => Err(RebalancerError::NotInitialized),
        }
    }

    /// Checks that the controller is initialised and that the caller is its
    /// oracle.
    pub fn require_oracle(&self, ctx: &Context) -> (r: Result<Config, RebalancerError>)
        ensures
            r == self.oracle_gate(*ctx),
    {
        let c = self.require_initialized()?;
        if ctx.caller == c.oracle {
            Ok(c)
        } else {
            Err(RebalancerError::Unauthorized)
        }
    }

    /// Checks that the controller is initialised and that the caller is its
    /// owner.
    pub fn require_owner(&self, ctx: &Context) -> (r: Result<Config, RebalancerError>)
        ensures
            r == self.owner_gate(*ctx),
    {
        let c = self.require_initialized()?;
        if ctx.caller == c.owner {
            Ok(c)
        } else {
            Err(RebalancerError::Unauthorized)
        }
    }

    /// Initialises the controller with its collaborators and the default
    /// bands, budgets and intervals. Anyone may do so, once: a second
    /// initialisation is refused with `AlreadyInitialized`.
    pub fn initialize(
        &mut self,
        joule_token: Address,
        pool: Address,
        quote_token: Address,
        oracle: Address,
        owner: Address,
        joule_is_token0: bool,
        router: Address,
        pool_fee: u32,
        events: &mut Vec<Event>,
    ) -> (r: Result<(), RebalancerError>)
        ensures
            old(self).config is Some ==> r == Err::<(), RebalancerError>(
                RebalancerError::AlreadyInitialized,
            ),
            old(self).config is None ==> r is Ok,
            r is Ok ==> *final(self) == (Rebalancer {
                config: Some(
                    Self::initial_config(
                        joule_token,
                        pool,
                        quote_token,
                        oracle,
                        owner,
                        joule_is_token0,
                        router,
                        pool_fee,
                    ),
                ),
                last_rebalance_ledger: old(self).last_rebalance_ledger,
            }),
            r is Ok ==> final(events)@ == old(events)@.push(Event::Initialized { joule_token, pool }),
            r is Err ==> *final(self) == *old(self) && final(events)@ == old(events)@,
            old(self).wf() ==> final(self).wf(),
    {
        if self.config.is_some() {
            return Err(RebalancerError::AlreadyInitialized);
        }
        self.config = Some(
            Config {
                joule_token,
                pool,
                quote_token,
                oracle,
                owner,
                quote_price: 0,
                upper_bps: DEFAULT_BAND_BPS,
                lower_bps: DEFAULT_BAND_BPS,
                max_mint: DEFAULT_MAX_MINT,
                max_quote_spend: DEFAULT_MAX_QUOTE_SPEND,
                joule_is_token0,
                max_stale_ledgers: DEFAULT_MAX_STALE_LEDGERS,
                cooldown_ledgers: DEFAULT_COOLDOWN_LEDGERS,
                min_reserve: DEFAULT_MIN_RESERVE,
                router,
                pool_fee,
            },
        );
        events.push(Event::Initialized { joule_token, pool });
        Ok(())
    }

    /// The oracle sets the price of the quote asset, in seven-decimal fixed
    /// point.
    pub fn set_quote_price(&mut self, ctx: &Context, price: i128, events: &mut Vec<Event>) -> (r:
        Result<(), RebalancerError>)
        requires
            price > 0,
        ensures
            match old(self).oracle_gate(*ctx) {
                Err(e) => r == Err::<(), RebalancerError>(e),
                Ok(c) => r is Ok && *final(self) == (Rebalancer {
                    config: Some(Config { quote_price: price, ..c }),
                    ..*old(self)
                }),
            },
            r is Ok ==> final(events)@ == old(events)@.push(Event::QuotePriceSet { price }),
            r is Err ==> *final(self) == *old(self) && final(events)@ == old(events)@,
            old(self).wf() ==> final(self).wf(),
    {
        let c = self.require_oracle(ctx)?;
        self.config = Some(Config { quote_price: price, ..c });
        events.push(Event::QuotePriceSet { price });
        Ok(())
    }

    /// The oracle forwards a price of the base token to the token's feed.
    /// The controller only says whether the caller may; the price goes to
    /// the feed, which judges it.
    pub fn update_price(
        &self,
        ctx: &Context,
        price_scaled: i128,
        nonce: u64,
        events: &mut Vec<Event>,
    ) -> (r: Result<(), RebalancerError>)
        ensures
            match self.oracle_gate(*ctx) {
                Err(e) => r == Err::<(), RebalancerError>(e),
                Ok(_) => r is Ok,
            },
            r is Ok ==> final(events)@ == old(events)@.push(
                Event::PriceForwarded { price: price_scaled, nonce },
            ),
            r is Err ==> final(events)@ == old(events)@,
    {
        let _ = self.require_oracle(ctx)?;
        events.push(Event::PriceForwarded { price: price_scaled, nonce });
        Ok(())
    }

    /// `from` funds the controller with `amount` of the quote asset out of
    /// its own holdings. Nobody else may do so in its place.
    pub fn fund_quote(
        &self,
        ctx: &Context,
        from: Address,
        amount: i128,
        events: &mut Vec<Event>,
    ) -> (r: Result<(), RebalancerError>)
        requires
            amount > 0,
        ensures
            self.config is None ==> r == Err::<(), RebalancerError>(
                RebalancerError::NotInitialized,
            ),
            self.config is Some && ctx.caller != from ==> r == Err::<(), RebalancerError>(
                RebalancerError::Unauthorized,
            ),
            self.config is Some && ctx.caller == from ==> r is Ok,
            r is Ok ==> final(events)@ == old(events)@.push(Event::Funded { from, amount }),
            r is Err ==> final(events)@ == old(events)@,
    {
        let _ = self.require_initialized()?;
        if ctx.caller != from {
            return Err(RebalancerError::Unauthorized);
        }
        events.push(Event::Funded { from, amount });
        Ok(())
    }

    /// The owner withdraws `amount` of `token`, which the controller holds,
    /// to `to`.
    pub fn withdraw(
        &self,
        ctx: &Context,
        token: Address,
        to: Address,
        amount: i128,
        events: &mut Vec<Event>,
    ) -> (r: Result<(), RebalancerError>)
        requires
            amount > 0,
        ensures
            match self.owner_gate(*ctx) {
                Err(e) => r == Err::<(), RebalancerError>(e),
                Ok(_) => r is Ok,
            },
            r is Ok ==> final(events)@ == old(events)@.push(Event::Withdraw { token, to, amount }),
            r is Err ==> final(events)@ == old(events)@,
    {
        let _ = self.require_owner(ctx)?;
        events.push(Event::Withdraw { token, to, amount });
        Ok(())
    }

    /// The owner names a new oracle.
    pub fn set_oracle(&mut self, ctx: &Context, oracle: Address, events: &mut Vec<Event>) -> (r:
        Result<(), RebalancerError>)
        ensures
            match old(self).owner_gate(*ctx) {
                Err(e) => r == Err::<(), RebalancerError>(e),
                Ok(c) => r is Ok && *final(self) == (Rebalancer {
                    config: Some(Config { oracle, ..c }),
                    ..*old(self)
                }),
            },
            r is Ok ==> final(events)@ == old(events)@.push(Event::OracleChanged { oracle }),
            r is Err ==> *final(self) == *old(self) && final(events)@ == old(events)@,
            old(self).wf() ==> final(self).wf(),
    {
        let c = self.require_owner(ctx)?;
        self.config = Some(Config { oracle, ..c });
        events.push(Event::OracleChanged { oracle });
        Ok(())
    }

    /// The owner points the controller at another pool, router and fee tier.
    pub fn set_pool(
        &mut self,
        ctx: &Context,
        pool: Address,
        joule_is_token0: bool,
        router: Address,
        pool_fee: u32,
        events: &mut Vec<Event>,
    ) -> (r: Result<(), RebalancerError>)
        ensures
            match old(self).owner_gate(*ctx) {
                Err(e) => r == Err::<(), RebalancerError>(e),
                Ok(c) => r is Ok && *final(self) == (Rebalancer {
                    config: Some(Config { pool, joule_is_token0, router, pool_fee, ..c }),
                    ..*old(self)
                }),
            },
            r is Ok ==> final(events)@ == old(events)@.push(
                Event::PoolChanged { pool, router, pool_fee },
            ),
            r is Err ==> *final(self) == *old(self) && final(events)@ == old(events)@,
            old(self).wf() ==> final(self).wf(),
    {
        let c = self.require_owner(ctx)?;
        self.config = Some(Config { pool, joule_is_token0, router, pool_fee, ..c });
        events.push(Event::PoolChanged { pool, router, pool_fee });
        Ok(())
    }

    /// The owner sets the band widths, the per-call budgets, the cooldown and
    /// the minimum reserve.
    pub fn set_params(
        &mut self,
        ctx: &Context,
        upper_bps: u32,
        lower_bps: u32,
        max_mint: i128,
        max_quote_spend: i128,
        cooldown_ledgers: u32,
        min_reserve: i128,
        events: &mut Vec<Event>,
    ) -> (r: Result<(), RebalancerError>)
        requires
            params_valid(
                upper_bps,
                lower_bps,
                max_mint,
                max_quote_spend,
                cooldown_ledgers,
                min_reserve,
            ),
        ensures
            match old(self).owner_gate(*ctx) {
                Err(e) => r == Err::<(), RebalancerError>(e),
                Ok(c) => r is Ok && *final(self) == (Rebalancer {
                    config: Some(
                        Config {
                            upper_bps,
                            lower_bps,
                            max_mint,
                            max_quote_spend,
                            cooldown_ledgers,
                            min_reserve,
                            ..c
                        },
                    ),
                    ..*old(self)
                }),
            },
            r is Ok ==> final(events)@ == old(events)@.push(
                Event::ParamsUpdated { upper_bps, lower_bps, max_mint, max_quote_spend },
            ),
            r is Err ==> *final(self) == *old(self) && final(events)@ == old(events)@,
            old(self).wf() ==> final(self).wf(),
    {
        let c = self.require_owner(ctx)?;
        self.config = Some(
            Config {
                upper_bps,
                lower_bps,
                max_mint,
                max_quote_spend,
                cooldown_ledgers,
                min_reserve,
                ..c
            },
        );
        events.push(Event::ParamsUpdated { upper_bps, lower_bps, max_mint, max_quote_spend });
        Ok(())
    }

    /// The owner sets how old an oracle price may be, in ledgers.
    pub fn set_max_stale(
        &mut self,
        ctx: &Context,
        max_stale_ledgers: u32,
        events: &mut Vec<Event>,
    ) -> (r: Result<(), RebalancerError>)
        requires
            max_stale_ledgers > 0,
        ensures
            match old(self).owner_gate(*ctx) {
                Err(e) => r == Err::<(), RebalancerError>(e),
                Ok(c) => r is Ok && *final(self) == (Rebalancer {
                    config: Some(Config { max_stale_ledgers, ..c }),
                    ..*old(self)
                }),
            },
            r is Ok ==> final(events)@ == old(events)@.push(
                Event::MaxStaleChanged { max_stale_ledgers },
            ),
            r is Err ==> *final(self) == *old(self) && final(events)@ == old(events)@,
            old(self).wf() ==> final(self).wf(),
    {
        let c = self.require_owner(ctx)?;
        self.config = Some(Config { max_stale_ledgers, ..c });
        events.push(Event::MaxStaleChanged { max_stale_ledgers });
        Ok(())
    }

    /// The owner asks to replace the controller's code.
    pub fn upgrade(&self, ctx: &Context) -> (r: Result<(), RebalancerError>)
        ensures
            match self.owner_gate(*ctx) {
                Err(e) => r == Err::<(), RebalancerError>(e),
                Ok(_) => r is Ok,
            },
    {
        let _ = self.require_owner(ctx)?;
        Ok(())
    }

    /// The configured price of the quote asset: `NotInitialized` before the
    /// controller is initialised, `QuotePriceNotSet` until a price is set.
    pub open spec fn spec_quote_price(&self) -> Result<i128, RebalancerError> {
        match self.config {
            None => Err(RebalancerError::NotInitialized),
            Some(c) => if c.quote_price <= 0 {
                Err(RebalancerError::QuotePriceNotSet)
            } else {
                Ok(c.quote_price)
            },
        }
    }

    /// The configured price of the quote asset, in seven-decimal fixed
    /// point, or the reason why there is none.
    pub fn quote_price(&self) -> (r: Result<i128, RebalancerError>)
        ensures
            r == self.spec_quote_price(),
            r matches Ok(price) ==> price > 0,
    {
        let c = self.require_initialized()?;
        if c.quote_price <= 0 {
            return Err(RebalancerError::QuotePriceNotSet);
        }
        Ok(c.quote_price)
    }

    /// The status that the given oracle price and reserves amount to, where
    /// it can be computed.
    pub open spec fn spec_status(
        &self,
        joule_usd: i128,
        reserve_quote: i128,
        reserve_joule: i128,
    ) -> Result<Option<PoolStatus>, RebalancerError> {
        match self.config {
            None => Err(RebalancerError::NotInitialized),
            Some(c) => if c.quote_price <= 0 {
                Err(RebalancerError::QuotePriceNotSet)
            } else if reserve_quote <= 0 || reserve_joule <= 0 {
                Err(RebalancerError::PoolEmpty)
            } else if !pool_price_fits(
                reserve_quote as int,
                reserve_joule as int,
                c.quote_price as int,
                joule_usd as int,
            ) {
                Ok(None)
            } else {
                let price = spec_pool_price(
                    reserve_quote as int,
                    reserve_joule as int,
                    c.quote_price as int,
                );
                Ok(
                    Some(
                        PoolStatus {
                            reserve_quote,
                            reserve_joule,
                            pool_joule_usd_x7: price as i128,
                            oracle_joule_usd_x7: joule_usd,
                            quote_usd_x7: c.quote_price,
                            deviation_bps: spec_deviation_bps(price, joule_usd as int) as i128,
                        },
                    ),
                )
            },
        }
    }

    /// Sets the pool's price against the oracle's, for observers. Takes the
    /// oracle price and the pool's two reserves as they were just read.
    ///
    /// Refuses with `QuotePriceNotSet` while no quote price is configured and
    /// with `PoolEmpty` if a reserve is not positive. Answers `Ok(None)` where
    /// the figures cannot be computed in 128 bits or the oracle price is 0.
    pub fn get_status(&self, joule_usd: i128, reserve_quote: i128, reserve_joule: i128) -> (r:
        Result<Option<PoolStatus>, RebalancerError>)
        ensures
            r == self.spec_status(joule_usd, reserve_quote, reserve_joule),
    {
        let quote_usd = self.quote_price()?;
        if reserve_quote <= 0 || reserve_joule <= 0 {
            return Err(RebalancerError::PoolEmpty);
        }
        match pool_price(reserve_quote, reserve_joule, quote_usd, joule_usd) {
            None => Ok(None),
            Some((price, deviation_bps)) => Ok(
                Some(
                    PoolStatus {
                        reserve_quote,
                        reserve_joule,
                        pool_joule_usd_x7: price,
                        oracle_joule_usd_x7: joule_usd,
                        quote_usd_x7: quote_usd,
                        deviation_bps,
                    },
                ),
            ),
        }
    }

    /// All configuration values, or `NotInitialized`.
    pub fn get_config(&self) -> (r: Result<Config, RebalancerError>)
        ensures
            r == (match self.config {
                Some(c) => Ok::<Config, RebalancerError>(c),
                None => Err::<Config, RebalancerError>(RebalancerError::NotInitialized),
            }),
    {
        self.require_initialized()
    }
}

} // verus!
