//! The token's own state: who may report and who may administer, the price
//! feed, and the running totals of what was minted and burnt.
//!
//! Balances, allowances and transfers are kept by the ledger that the token
//! is deployed on, as are pausing and the hand-over of ownership; none of
//! them is modelled here.

use vstd::prelude::*;
use crate::account::{Address, Context};
use crate::events::Event;
use crate::math::{distance, in_i128};
use crate::oracle::{
    check_bounds,
    check_circuit_breaker,
    get_nonce,
    law_swing_boundary,
    set_price_data,
    spec_nonce,
    swing_exceeded,
    within_bounds,
    PriceData,
    DEFAULT_MINT_CAP,
    DEFAULT_PRICE_CEILING,
    DEFAULT_PRICE_FLOOR,
    MAX_SWING_BPS,
};

verus! {

/// The number of decimals that amounts and prices are scaled by.
pub const DECIMALS: u32 = 7;

/// The token's name.
pub const NAME: &'static str = "Joule Compute Credit";

/// The token's symbol.
pub const SYMBOL: &'static str = "JOULE";

/// Why the token refuses a call. A refused call changes nothing.
#[derive(Copy, Clone, Debug, Eq, PartialEq, PartialOrd, Ord, Structural)]
pub enum JouleError {
    /// The holder has less than the amount asked for.
    InsufficientBalance,
    /// An amount that has to be positive is not.
    InvalidAmount,
    /// The caller is not the owner.
    Unauthorized,
    /// The caller is not the oracle.
    OracleOnly,
    /// The request has been processed before.
    AlreadyProcessed,
    /// The nonce of a report is not above that of the last accepted one.
    StaleNonce,
    /// The reported price lies outside the floor and the ceiling.
    PriceOutOfBounds,
    /// The reported price lies too far from the one before it.
    CircuitBreakerTripped,
    /// The oracle asked to mint more than its cap per call.
    MintCapExceeded,
    /// No price has been reported yet.
    PriceNotSet,
}

impl JouleError {
    /// The number under which the error is reported on the wire.
    pub open spec fn spec_code(self) -> u32 {
        match self {
            JouleError::InsufficientBalance => 1,
            JouleError::InvalidAmount => 2,
            JouleError::Unauthorized => 3,
            JouleError::OracleOnly => 5,
            JouleError::AlreadyProcessed => 6,
            JouleError::StaleNonce => 7,
            JouleError::PriceOutOfBounds => 8,
            JouleError::CircuitBreakerTripped => 9,
            JouleError::MintCapExceeded => 10,
            JouleError::PriceNotSet => 11,
        }
    }

    /// The number under which the error is reported on the wire.
    pub fn code(self) -> (n: u32)
        ensures
            n == self.spec_code(),
    {
        match self {
            JouleError::InsufficientBalance => 1,
            JouleError::InvalidAmount => 2,
            JouleError::Unauthorized => 3,
            JouleError::OracleOnly => 5,
            JouleError::AlreadyProcessed => 6,
            JouleError::StaleNonce => 7,
            JouleError::PriceOutOfBounds => 8,
            JouleError::CircuitBreakerTripped => 9,
            JouleError::MintCapExceeded => 10,
            JouleError::PriceNotSet => 11,
        }
    }
}

/// The state that the token keeps between calls.
#[derive(Clone, Copy, Debug, PartialEq, Eq, Structural)]
pub struct JouleToken {
    /// The identity allowed to administer the token; `None` once ownership
    /// has been given up, after which nobody is.
    pub owner: Option<Address>,
    /// The identity allowed to report prices and to mint within the cap.
    pub oracle: Address,
    /// Everything ever minted.
    pub total_minted: i128,
    /// Everything ever burnt for compute.
    pub total_burned: i128,
    /// The price feed's record; `None` until the first report is accepted.
    pub price: Option<PriceData>,
    /// The lowest price the feed accepts.
    pub price_floor: i128,
    /// The highest price the feed accepts.
    pub price_ceiling: i128,
    /// The largest amount the oracle may mint in one call.
    pub mint_cap: i128,
}

impl JouleToken {
    /// The bounds that the token's state keeps: the floor is positive and
    /// below the ceiling, the mint cap is positive, neither total is
    /// negative, and the price that the feed holds is positive and was
    /// reported under a nonce above 0.
    pub open spec fn wf(&self) -> bool {
        &&& 0 < self.price_floor < self.price_ceiling
        &&& self.mint_cap > 0
        &&& self.total_minted >= 0
        &&& self.total_burned >= 0
        &&& self.price matches Some(data) ==> data.nonce > 0 && data.price > 0
    }

    /// `who` is the token's owner.
    pub open spec fn owned_by(&self, who: Address) -> bool {
        self.owner == Some(who)
    }

    /// Whether `who` is the token's owner.
    pub fn is_owner(&self, who: Address) -> (b: bool)
        ensures
            b == self.owned_by(who),
    {
        match self.owner {
            Some(owner) => owner == who,
            None => false,
        }
    }

    /// What the feed answers to a report by the oracle.
    ///
    /// The checks come in a fixed order, and the first that fails decides:
    /// the caller is the oracle; the nonce is above the last accepted one;
    /// the price lies within the bounds; the price lies within the allowed
    /// swing of the price before it, if there is one.
    pub open spec fn spec_set_price(&self, ctx: Context, price: i128, nonce: u64) -> Result<
        (),
        JouleError,
    > {
        if ctx.caller != self.oracle {
            Err(JouleError::OracleOnly)
        } else if nonce <= spec_nonce(*self) {
            Err(JouleError::StaleNonce)
        } else if !within_bounds(self.price_floor as int, self.price_ceiling as int, price as int) {
            Err(JouleError::PriceOutOfBounds)
        } else if self.price matches Some(data) && swing_exceeded(data.price as int, price as int) {
            Err(JouleError::CircuitBreakerTripped)
        } else {
            Ok(())
        }
    }

    /// What the feed answers to an override by the owner: the checks of a
    /// report but for the swing, and the caller has to be the owner.
    pub open spec fn spec_owner_set_price(&self, ctx: Context, price: i128, nonce: u64) -> Result<
        (),
        JouleError,
    > {
        if !self.owned_by(ctx.caller) {
            Err(JouleError::Unauthorized)
        } else if nonce <= spec_nonce(*self) {
            Err(JouleError::StaleNonce)
        } else if !within_bounds(self.price_floor as int, self.price_ceiling as int, price as int) {
            Err(JouleError::PriceOutOfBounds)
        } else {
            Ok(())
        }
    }

    /// The token once the feed holds `price`, reported under `nonce` in the
    /// circumstances `ctx`.
    pub open spec fn with_price(&self, ctx: Context, price: i128, nonce: u64) -> JouleToken {
        JouleToken { price: Some(PriceData { price, nonce, ledger: ctx.ledger }), ..*self }
    }

    /// What the token answers to a mint by the oracle.
    pub open spec fn spec_oracle_mint(&self, ctx: Context, amount: i128) -> Result<(), JouleError> {
        if ctx.caller != self.oracle {
            Err(JouleError::OracleOnly)
        } else if amount <= 0 {
            Err(JouleError::InvalidAmount)
        } else if amount > self.mint_cap {
            Err(JouleError::MintCapExceeded)
        } else {
            Ok(())
        }
    }

    /// A token with the given owner and oracle, nothing minted or burnt, no
    /// price reported, and the default bounds and mint cap.
    pub fn initialize(owner: Address, oracle: Address) -> (token: JouleToken)
        ensures
            token == (JouleToken {
                owner: Some(owner),
                oracle,
                total_minted: 0,
                total_burned: 0,
                price: None,
                price_floor: DEFAULT_PRICE_FLOOR,
                price_ceiling: DEFAULT_PRICE_CEILING,
                mint_cap: DEFAULT_MINT_CAP,
            }),
            token.wf(),
    {
        JouleToken {
            owner: Some(owner),
            oracle,
            total_minted: 0,
            total_burned: 0,
            price: None,
            price_floor: DEFAULT_PRICE_FLOOR,
            price_ceiling: DEFAULT_PRICE_CEILING,
            mint_cap: DEFAULT_MINT_CAP,
        }
    }

    /// The owner mints `amount` to `to`. The ledger credits the receiver; the
    /// token adds the amount to its total.
    pub fn mint(
        &mut self,
        ctx: &Context,
        to: Address,
        amount: i128,
        events: &mut Vec<Event>,
    ) -> (r: Result<(), JouleError>)
        requires
            amount > 0,
            old(self).owned_by(ctx.caller) ==> old(self).total_minted + amount <= i128::MAX,
        ensures
            !old(self).owned_by(ctx.caller) ==> r == Err::<(), JouleError>(JouleError::Unauthorized),
            old(self).owned_by(ctx.caller) ==> r is Ok,
            r is Ok ==> *final(self) == (JouleToken {
                total_minted: (old(self).total_minted + amount) as i128,
                ..*old(self)
            }) && final(events)@ == old(events)@.push(Event::Mint { to, amount }),
            r is Err ==> *final(self) == *old(self) && final(events)@ == old(events)@,
            old(self).wf() ==> final(self).wf(),
    {
        if !self.is_owner(ctx.caller) {
            return Err(JouleError::Unauthorized);
        }
        self.total_minted = self.total_minted + amount;
        events.push(Event::Mint { to, amount });
        Ok(())
    }

    /// `from` burns `amount` of its own tokens to pay for compute. The
    /// ledger debits the holder; the token adds the amount to its total.
    pub fn burn_for_compute(
        &mut self,
        ctx: &Context,
        from: Address,
        amount: i128,
        events: &mut Vec<Event>,
    ) -> (r: Result<(), JouleError>)
        requires
            amount > 0,
            ctx.caller == from ==> old(self).total_burned + amount <= i128::MAX,
        ensures
            ctx.caller != from ==> r == Err::<(), JouleError>(JouleError::Unauthorized),
            ctx.caller == from ==> r is Ok,
            r is Ok ==> *final(self) == (JouleToken {
                total_burned: (old(self).total_burned + amount) as i128,
                ..*old(self)
            }) && final(events)@ == old(events)@.push(Event::BurnForCompute { from, amount }),
            r is Err ==> *final(self) == *old(self) && final(events)@ == old(events)@,
            old(self).wf() ==> final(self).wf(),
    {
        if ctx.caller != from {
            return Err(JouleError::Unauthorized);
        }
        self.total_burned = self.total_burned + amount;
        events.push(Event::BurnForCompute { from, amount });
        Ok(())
    }

    /// The owner names a new oracle.
    pub fn set_oracle(&mut self, ctx: &Context, oracle: Address) -> (r: Result<(), JouleError>)
        ensures
            !old(self).owned_by(ctx.caller) ==> r == Err::<(), JouleError>(JouleError::Unauthorized)
                && *final(self) == *old(self),
            old(self).owned_by(ctx.caller) ==> r is Ok && *final(self) == (JouleToken {
                oracle,
                ..*old(self)
            }),
            old(self).wf() ==> final(self).wf(),
    {
        if !self.is_owner(ctx.caller) {
            return Err(JouleError::Unauthorized);
        }
        self.oracle = oracle;
        Ok(())
    }

    /// The oracle.
    pub fn oracle(&self) -> (a: Address)
        ensures
            a == self.oracle,
    {
        self.oracle
    }

    /// Everything ever minted.
    pub fn total_minted(&self) -> (n: i128)
        ensures
            n == self.total_minted,
    {
        self.total_minted
    }

    /// Everything ever burnt for compute.
    pub fn total_burned(&self) -> (n: i128)
        ensures
            n == self.total_burned,
    {
        self.total_burned
    }

    /// What was minted and has not been burnt for compute.
    pub fn circulating_supply(&self) -> (n: i128)
        requires
            in_i128(self.total_minted - self.total_burned),
        ensures
            n == self.total_minted - self.total_burned,
    {
        self.total_minted - self.total_burned
    }

    /// The oracle reports a price. The report is accepted if its nonce is
    /// above the last accepted one, the price lies within the bounds, and
    /// the price lies within the allowed swing of the price before it. An
    /// accepted report replaces the feed's record and is logged.
    pub fn set_price(
        &mut self,
        ctx: &Context,
        price_scaled: i128,
        nonce: u64,
        events: &mut Vec<Event>,
    ) -> (r: Result<(), JouleError>)
        ensures
            r == old(self).spec_set_price(*ctx, price_scaled, nonce),
            r is Ok ==> *final(self) == old(self).with_price(*ctx, price_scaled, nonce),
            r is Ok ==> final(events)@ == old(events)@.push(
                Event::PriceUpdated { price: price_scaled, nonce, ledger: ctx.ledger },
            ),
            r is Err ==> *final(self) == *old(self) && final(events)@ == old(events)@,
            r is Ok ==> final(self).price_floor <= price_scaled <= final(self).price_ceiling,
            r is Ok ==> spec_nonce(*final(self)) > spec_nonce(*old(self)),
            old(self).wf() ==> final(self).wf(),
    {
        if ctx.caller != self.oracle {
            return Err(JouleError::OracleOnly);
        }
        let current_nonce = get_nonce(self);
        if nonce <= current_nonce {
            return Err(JouleError::StaleNonce);
        }
        check_bounds(self, price_scaled)?;
        if let Some(existing) = self.price {
            check_circuit_breaker(existing.price, price_scaled)?;
        }
        let data = PriceData { price: price_scaled, nonce, ledger: ctx.ledger };
        set_price_data(self, &data);
        events.push(Event::PriceUpdated { price: price_scaled, nonce, ledger: ctx.ledger });
        Ok(())
    }

    /// The price that the feed holds and the ledger it was accepted at, or
    /// `PriceNotSet` before the first report.
    pub fn get_price(&self) -> (r: Result<(i128, u32), JouleError>)
        ensures
            r == (match self.price {
                Some(data) => Ok::<(i128, u32), JouleError>((data.price, data.ledger)),
                None => Err::<(i128, u32), JouleError>(JouleError::PriceNotSet),
            }),
    {
        match self.price {
            Some(data) => Ok((data.price, data.ledger)),
            None => Err(JouleError::PriceNotSet),
        }
    }

    /// Whether the oracle may mint `amount` in the circumstances `ctx`: the
    /// caller is the oracle, and the amount is positive and within the cap.
    pub fn check_oracle_mint(&self, ctx: &Context, amount: i128) -> (r: Result<(), JouleError>)
        ensures
            r == self.spec_oracle_mint(*ctx, amount),
    {
        if ctx.caller != self.oracle {
            return Err(JouleError::OracleOnly);
        }
        if amount <= 0 {
            return Err(JouleError::InvalidAmount);
        }
        let cap = self.mint_cap;
        if amount > cap {
            return Err(JouleError::MintCapExceeded);
        }
        Ok(())
    }

    /// The oracle mints `amount` to `to`; the amount has to be positive and
    /// within the cap. The ledger credits the receiver; the token adds the
    /// amount to its total.
    pub fn oracle_mint(
        &mut self,
        ctx: &Context,
        to: Address,
        amount: i128,
        events: &mut Vec<Event>,
    ) -> (r: Result<(), JouleError>)
        requires
            old(self).spec_oracle_mint(*ctx, amount) is Ok ==> old(self).total_minted + amount
                <= i128::MAX,
        ensures
            r == old(self).spec_oracle_mint(*ctx, amount),
            r is Ok ==> *final(self) == (JouleToken {
                total_minted: (old(self).total_minted + amount) as i128,
                ..*old(self)
            }) && final(events)@ == old(events)@.push(Event::OracleMint { to, amount }),
            r is Err ==> *final(self) == *old(self) && final(events)@ == old(events)@,
            old(self).wf() ==> final(self).wf(),
    {
        self.check_oracle_mint(ctx, amount)?;
        self.total_minted = self.total_minted + amount;
        events.push(Event::OracleMint { to, amount });
        Ok(())
    }

    /// The owner overrides the price: an emergency path that skips the
    /// circuit breaker and keeps the other two rules. It is logged apart
    /// from the oracle's reports.
    pub fn owner_set_price(
        &mut self,
        ctx: &Context,
        price_scaled: i128,
        nonce: u64,
        events: &mut Vec<Event>,
    ) -> (r: Result<(), JouleError>)
        ensures
            r == old(self).spec_owner_set_price(*ctx, price_scaled, nonce),
            r is Ok ==> *final(self) == old(self).with_price(*ctx, price_scaled, nonce),
            r is Ok ==> final(events)@ == old(events)@.push(
                Event::PriceOverride { price: price_scaled, nonce, ledger: ctx.ledger },
            ),
            r is Err ==> *final(self) == *old(self) && final(events)@ == old(events)@,
            r is Ok ==> final(self).price_floor <= price_scaled <= final(self).price_ceiling,
            r is Ok ==> spec_nonce(*final(self)) > spec_nonce(*old(self)),
            old(self).wf() ==> final(self).wf(),
    {
        if !self.is_owner(ctx.caller) {
            return Err(JouleError::Unauthorized);
        }
        let current_nonce = get_nonce(self);
        if nonce <= current_nonce {
            return Err(JouleError::StaleNonce);
        }
        check_bounds(self, price_scaled)?;
        let data = PriceData { price: price_scaled, nonce, ledger: ctx.ledger };
        set_price_data(self, &data);
        events.push(Event::PriceOverride { price: price_scaled, nonce, ledger: ctx.ledger });
        Ok(())
    }

    /// The owner sets the largest amount the oracle may mint in one call.
    pub fn set_mint_cap(&mut self, ctx: &Context, cap: i128) -> (r: Result<(), JouleError>)
        requires
            cap > 0,
        ensures
            !old(self).owned_by(ctx.caller) ==> r == Err::<(), JouleError>(JouleError::Unauthorized)
                && *final(self) == *old(self),
            old(self).owned_by(ctx.caller) ==> r is Ok && *final(self) == (JouleToken {
                mint_cap: cap,
                ..*old(self)
            }),
            old(self).wf() ==> final(self).wf(),
    {
        if !self.is_owner(ctx.caller) {
            return Err(JouleError::Unauthorized);
        }
        self.mint_cap = cap;
        Ok(())
    }

    /// The largest amount the oracle may mint in one call.
    pub fn mint_cap(&self) -> (cap: i128)
        ensures
            cap == self.mint_cap,
    {
        self.mint_cap
    }

    /// The owner sets the floor and the ceiling of the feed. The price that
    /// the feed holds stays, also where it lies outside the new bounds.
    pub fn set_price_bounds(&mut self, ctx: &Context, floor: i128, ceiling: i128) -> (r: Result<
        (),
        JouleError,
    >)
        requires
            floor > 0,
            ceiling > floor,
        ensures
            !old(self).owned_by(ctx.caller) ==> r == Err::<(), JouleError>(JouleError::Unauthorized)
                && *final(self) == *old(self),
            old(self).owned_by(ctx.caller) ==> r is Ok && *final(self) == (JouleToken {
                price_floor: floor,
                price_ceiling: ceiling,
                ..*old(self)
            }),
            old(self).wf() ==> final(self).wf(),
    {
        if !self.is_owner(ctx.caller) {
            return Err(JouleError::Unauthorized);
        }
        self.price_floor = floor;
        self.price_ceiling = ceiling;
        Ok(())
    }

    /// The floor and the ceiling of the feed, in this order.
    pub fn price_bounds(&self) -> (r: (i128, i128))
        ensures
            r == (self.price_floor, self.price_ceiling),
    {
        (self.price_floor, self.price_ceiling)
    }

    /// The owner asks to replace the token's code.
    pub fn upgrade(&self, ctx: &Context) -> (r: Result<(), JouleError>)
        ensures
            !self.owned_by(ctx.caller) ==> r == Err::<(), JouleError>(JouleError::Unauthorized),
            self.owned_by(ctx.caller) ==> r is Ok,
    {
        if !self.is_owner(ctx.caller) {
            return Err(JouleError::Unauthorized);
        }
        Ok(())
    }
}

impl JouleToken {
    /// Nonces only go up. Once a report under `nonce1` is accepted, a report
    /// by the oracle under a nonce up to `nonce1` is refused as stale, and
    /// one under a higher nonce is not: it is accepted if its price passes
    /// the bounds and the circuit breaker.
    pub proof fn law_nonce_order(
        self,
        first: Context,
        price1: i128,
        nonce1: u64,
        second: Context,
        price2: i128,
        nonce2: u64,
    )
        requires
            self.spec_set_price(first, price1, nonce1) is Ok || self.spec_owner_set_price(
                first,
                price1,
                nonce1,
            ) is Ok,
            second.caller == self.oracle,
        ensures
            ({
                let after = self.with_price(first, price1, nonce1);
                let answer = after.spec_set_price(second, price2, nonce2);
                &&& nonce2 <= nonce1 ==> answer == Err::<(), JouleError>(JouleError::StaleNonce)
                &&& nonce2 > nonce1 ==> answer != Err::<(), JouleError>(JouleError::StaleNonce)
                &&& nonce2 > nonce1 && within_bounds(
                    self.price_floor as int,
                    self.price_ceiling as int,
                    price2 as int,
                ) && !swing_exceeded(price1 as int, price2 as int) ==> answer is Ok
            }),
    {
    }

    /// The owner's override is held to the same order of nonces as a report.
    pub proof fn law_nonce_order_override(
        self,
        first: Context,
        price1: i128,
        nonce1: u64,
        second: Context,
        price2: i128,
        nonce2: u64,
    )
        requires
            self.spec_set_price(first, price1, nonce1) is Ok || self.spec_owner_set_price(
                first,
                price1,
                nonce1,
            ) is Ok,
            self.owned_by(second.caller),
        ensures
            ({
                let after = self.with_price(first, price1, nonce1);
                let answer = after.spec_owner_set_price(second, price2, nonce2);
                &&& nonce2 <= nonce1 ==> answer == Err::<(), JouleError>(JouleError::StaleNonce)
                &&& nonce2 > nonce1 ==> answer != Err::<(), JouleError>(JouleError::StaleNonce)
            }),
    {
    }

    /// Every price that the feed accepts, from the oracle or from the owner,
    /// lies within the floor and the ceiling, and is the price that the feed
    /// holds afterwards.
    pub proof fn law_accepted_price_within_bounds(self, ctx: Context, price: i128, nonce: u64)
        requires
            self.spec_set_price(ctx, price, nonce) is Ok || self.spec_owner_set_price(
                ctx,
                price,
                nonce,
            ) is Ok,
        ensures
            self.price_floor <= price <= self.price_ceiling,
            self.with_price(ctx, price, nonce).price == Some(
                PriceData { price, nonce, ledger: ctx.ledger },
            ),
            self.with_price(ctx, price, nonce).price_floor == self.price_floor,
            self.with_price(ctx, price, nonce).price_ceiling == self.price_ceiling,
    {
    }

    /// A report that is accepted moves the price by no more than
    /// `MAX_SWING_BPS` basis points of the price before it.
    pub proof fn law_report_within_swing(self, ctx: Context, price: i128, nonce: u64)
        requires
            self.spec_set_price(ctx, price, nonce) is Ok,
            self.price is Some,
        ensures
            distance(price as int, self.price->0.price as int) * 10_000 <= MAX_SWING_BPS
                * self.price->0.price,
    {
    }

    /// The circuit breaker counts its limit in. With a price in the feed, a
    /// report by the oracle under a fresh nonce and within the bounds is
    /// accepted if it moves the price by exactly `MAX_SWING_BPS` basis points
    /// of it, and is refused with `CircuitBreakerTripped` if it moves the
    /// price by one basis point more.
    pub proof fn law_swing_boundary_report(self, ctx: Context, price: i128, nonce: u64)
        requires
            self.wf(),
            self.price is Some,
            ctx.caller == self.oracle,
            nonce > spec_nonce(self),
            within_bounds(self.price_floor as int, self.price_ceiling as int, price as int),
        ensures
            distance(price as int, self.price->0.price as int) * 10_000 == MAX_SWING_BPS
                * self.price->0.price ==> self.spec_set_price(ctx, price, nonce) is Ok,
            distance(price as int, self.price->0.price as int) * 10_000 == (MAX_SWING_BPS + 1)
                * self.price->0.price ==> self.spec_set_price(ctx, price, nonce) == Err::<
                (),
                JouleError,
            >(JouleError::CircuitBreakerTripped),
    {
        law_swing_boundary(self.price->0.price as int, price as int);
    }

    /// The owner's override admits any swing: whatever price the feed holds,
    /// an override by the owner under a fresh nonce is accepted exactly when
    /// its price lies within the floor and the ceiling.
    pub proof fn law_override_ignores_swing(self, ctx: Context, price: i128, nonce: u64)
        requires
            self.owned_by(ctx.caller),
            nonce > spec_nonce(self),
        ensures
            self.spec_owner_set_price(ctx, price, nonce) is Ok <==> within_bounds(
                self.price_floor as int,
                self.price_ceiling as int,
                price as int,
            ),
            !within_bounds(self.price_floor as int, self.price_ceiling as int, price as int)
                ==> self.spec_owner_set_price(ctx, price, nonce) == Err::<(), JouleError>(
                JouleError::PriceOutOfBounds,
            ),
    {
    }
}

} // verus!
