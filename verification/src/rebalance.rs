//! One rebalance, as a decision over what has been observed so far.
//!
//! A rebalance needs facts that only the outside world has: the oracle's
//! price, the pool's reserves, the controller's balances, the outcome of the
//! swap. The controller asks for them one at a time. Its driver starts with
//! empty [`Observations`], calls [`Rebalancer::rebalance`], does what the
//! returned [`Step`] says, records the answer and calls again, until the
//! step is [`Step::Done`] or the call is refused. Nothing is stored before
//! the last step, so a driver that stops early leaves the controller as it
//! was.
//!
//! The decision is a function of the controller, the circumstances of the
//! call and the observations alone: asked again with the same observations,
//! the controller gives the same answer.

use vstd::prelude::*;
use crate::account::Context;
use crate::events::Event;
use crate::math::in_i128;
use crate::peg::{
    buyback_amount,
    buyback_amount_fits,
    capped,
    deviation,
    deviation_fits,
    expectation,
    expectation_fits,
    law_band_edges,
    mint_amount,
    mint_amount_fits,
    oracle_value,
    pool_value,
    spec_buyback_amount,
    spec_capped,
    spec_deviation,
    spec_expected_out,
    spec_min_acceptable,
    spec_mint_amount,
    Deviation,
};
use crate::rebalancer::{Config, Rebalancer, RebalancerError};
use crate::swap::{spec_swap_output, spec_swap_request, swap_output, swap_request, SwapRequest};

verus! {

/// The two corrective trades.
#[derive(Clone, Copy, Debug, PartialEq, Eq, Structural)]
pub enum Trade {
    /// Mint base tokens and sell them into the pool.
    Mint,
    /// Buy base tokens out of the pool and burn them.
    Buyback,
}

/// What the driver has read and done so far in this call. Every field starts
/// as `None` and is filled in when a [`Step`] asks for it.
#[derive(Clone, Copy, Debug)]
pub struct Observations {
    /// The oracle's price of the base token and the ledger it was set at.
    pub oracle_price: Option<(i128, u32)>,
    /// The pool's holdings of the quote asset and of the base token.
    pub reserves: Option<(i128, i128)>,
    /// The controller's holding of the quote asset.
    pub quote_balance: Option<i128>,
    /// The two net amounts that the pool reported for the swap, for token 0
    /// and for token 1.
    pub swap: Option<(i128, i128)>,
    /// The controller's holding of the base token after the swap.
    pub joule_balance: Option<i128>,
}

/// The account of a rebalance that went through.
#[derive(Clone, Copy, Debug, PartialEq, Eq, Structural)]
pub struct Receipt {
    pub trade: Trade,
    /// Base tokens minted and sold, or quote asset spent.
    pub amount_in: i128,
    /// What the pool paid out for it.
    pub amount_out: i128,
    /// What the trade should have brought at oracle prices.
    pub expected_out: i128,
    /// The floor under `expected_out`; proceeds below it call for a warning.
    pub min_acceptable: i128,
    /// Base tokens the driver has to burn: the controller's whole holding
    /// after a buyback, nothing after a mint.
    pub burn: i128,
    /// The pool's reserves that the trade was sized on.
    pub reserve_quote: i128,
    pub reserve_joule: i128,
}

/// What the driver has to do next.
#[derive(Clone, Copy, Debug, PartialEq, Eq, Structural)]
pub enum Step {
    /// Read the oracle's price of the base token and the ledger it was set at.
    ReadOraclePrice,
    /// Read the pool's holdings of both assets.
    ReadReserves,
    /// Read the controller's holding of the quote asset.
    ReadQuoteBalance,
    /// Mint `amount_in` base tokens to the controller, then execute the swap.
    MintAndSell(SwapRequest),
    /// Execute the swap.
    Buy(SwapRequest),
    /// The swap is accounted for as in the receipt. Read the controller's
    /// holding of the base token, all of which the last step burns.
    ReadJouleBalance(Receipt),
    /// The rebalance went through: burn what the receipt says and store the
    /// controller.
    Done(Receipt),
    /// A figure that the decision needs cannot be held in 128 bits, or a
    /// price of zero would divide. Nothing can be decided: abandon the call.
    Overflow,
}

/// The last rebalance is too recent. A controller that never rebalanced has
/// no cooldown to wait for.
pub open spec fn spec_cooldown_active(last: u32, cooldown: u32, now: u32) -> bool {
    last > 0 && now - last < cooldown
}

/// The oracle's price is older than allowed.
pub open spec fn spec_oracle_stale(now: u32, price_ledger: u32, max_stale: u32) -> bool {
    now - price_ledger > max_stale
}

/// What is to be burnt of a holding: all of it.
pub open spec fn spec_sweep(balance: i128) -> i128 {
    if balance > 0 {
        balance
    } else {
        0
    }
}

/// The receipt of a swap that the pool answered with `amounts`, before
/// anything is burnt; `None` where a figure does not fit.
pub open spec fn spec_settle(
    trade: Trade,
    request: SwapRequest,
    price_in: i128,
    price_out: i128,
    reserve_quote: i128,
    reserve_joule: i128,
    amounts: (i128, i128),
) -> Option<Receipt> {
    let out = spec_swap_output(request.zero_for_one, amounts.0 as int, amounts.1 as int);
    let expected = spec_expected_out(request.amount_in as int, price_in as int, price_out as int);
    if in_i128(out) && expectation_fits(
        request.amount_in as int,
        price_in as int,
        price_out as int,
    ) {
        Some(
            Receipt {
                trade,
                amount_in: request.amount_in,
                amount_out: out as i128,
                expected_out: expected as i128,
                min_acceptable: spec_min_acceptable(expected) as i128,
                burn: 0,
                reserve_quote,
                reserve_joule,
            },
        )
    } else {
        None
    }
}

/// The mint branch: size the mint, order it, and account for it once the
/// pool has answered.
pub open spec fn spec_mint_rebalance(
    c: Config,
    reserve_quote: i128,
    reserve_joule: i128,
    joule_usd: i128,
    seen: Observations,
) -> Result<Step, RebalancerError> {
    if !mint_amount_fits(
        reserve_quote as int,
        reserve_joule as int,
        c.quote_price as int,
        joule_usd as int,
        c.upper_bps as int,
    ) {
        Ok(Step::Overflow)
    } else {
        match spec_capped(
            spec_mint_amount(
                reserve_quote as int,
                reserve_joule as int,
                c.quote_price as int,
                joule_usd as int,
                c.upper_bps as int,
            ) as i128,
            c.max_mint,
        ) {
            None => Err(RebalancerError::NoRebalanceNeeded),
            Some(amount) => {
                let request = spec_swap_request(
                    c.joule_token,
                    c.joule_is_token0,
                    c.joule_token,
                    c.quote_token,
                    amount,
                );
                match seen.swap {
                    None => Ok(Step::MintAndSell(request)),
                    Some(amounts) => match spec_settle(
                        Trade::Mint,
                        request,
                        joule_usd,
                        c.quote_price,
                        reserve_quote,
                        reserve_joule,
                        amounts,
                    ) {
                        None => Ok(Step::Overflow),
                        Some(receipt) => Ok(Step::Done(receipt)),
                    },
                }
            },
        }
    }
}

/// The buyback branch: size the spend, check that it is funded, order the
/// swap, and sweep the controller's base tokens once the pool has answered.
pub open spec fn spec_buyback_rebalance(
    c: Config,
    reserve_quote: i128,
    reserve_joule: i128,
    joule_usd: i128,
    seen: Observations,
) -> Result<Step, RebalancerError> {
    if !buyback_amount_fits(
        reserve_quote as int,
        reserve_joule as int,
        c.quote_price as int,
        joule_usd as int,
    ) {
        Ok(Step::Overflow)
    } else {
        match spec_capped(
            spec_buyback_amount(
                reserve_quote as int,
                reserve_joule as int,
                c.quote_price as int,
                joule_usd as int,
            ) as i128,
            c.max_quote_spend,
        ) {
            None => Err(RebalancerError::NoRebalanceNeeded),
            Some(spend) => match seen.quote_balance {
                None => Ok(Step::ReadQuoteBalance),
                Some(balance) => if balance < spend {
                    Err(RebalancerError::InsufficientQuote)
                } else {
                    let request = spec_swap_request(
                        c.joule_token,
                        c.joule_is_token0,
                        c.quote_token,
                        c.joule_token,
                        spend,
                    );
                    match seen.swap {
                        None => Ok(Step::Buy(request)),
                        Some(amounts) => match spec_settle(
                            Trade::Buyback,
                            request,
                            c.quote_price,
                            joule_usd,
                            reserve_quote,
                            reserve_joule,
                            amounts,
                        ) {
                            None => Ok(Step::Overflow),
                            Some(receipt) => match seen.joule_balance {
                                None => Ok(Step::ReadJouleBalance(receipt)),
                                Some(held) => Ok(
                                    Step::Done(Receipt { burn: spec_sweep(held), ..receipt }),
                                ),
                            },
                        },
                    }
                },
            },
        }
    }
}

/// The decision on a pool whose reserves are known: refuse a pool that is
/// too thin, leave alone one that is within the band, and take the branch
/// that the deviation calls for otherwise.
pub open spec fn spec_decide(
    c: Config,
    reserve_quote: i128,
    reserve_joule: i128,
    joule_usd: i128,
    seen: Observations,
) -> Result<Step, RebalancerError> {
    if reserve_quote < c.min_reserve || reserve_joule < c.min_reserve {
        Err(RebalancerError::PoolEmpty)
    } else if !deviation_fits(
        reserve_quote as int,
        reserve_joule as int,
        c.quote_price as int,
        joule_usd as int,
        c.upper_bps as int,
        c.lower_bps as int,
    ) {
        Ok(Step::Overflow)
    } else {
        match spec_deviation(
            reserve_quote as int,
            reserve_joule as int,
            c.quote_price as int,
            joule_usd as int,
            c.upper_bps as int,
            c.lower_bps as int,
        ) {
            Deviation::Overpriced => spec_mint_rebalance(
                c,
                reserve_quote,
                reserve_joule,
                joule_usd,
                seen,
            ),
            Deviation::Underpriced => spec_buyback_rebalance(
                c,
                reserve_quote,
                reserve_joule,
                joule_usd,
                seen,
            ),
            Deviation::InBand => Err(RebalancerError::NoRebalanceNeeded),
        }
    }
}

/// The warning that a receipt calls for: one, if the swap brought less than
/// the floor under its expectation, and none otherwise.
pub open spec fn spec_warning(receipt: Receipt) -> Seq<Event> {
    if receipt.spec_slippage_warning() {
        seq![
            Event::SlippageWarning {
                received: receipt.amount_out,
                expected: receipt.expected_out,
                min_acceptable: receipt.min_acceptable,
            },
        ]
    } else {
        Seq::empty()
    }
}

/// The entry that records the trade of a receipt.
pub open spec fn spec_trade_event(receipt: Receipt) -> Event {
    match receipt.trade {
        Trade::Mint => Event::RebalanceMint {
            mint_amount: receipt.amount_in,
            received: receipt.amount_out,
            reserve_quote: receipt.reserve_quote,
            reserve_joule: receipt.reserve_joule,
        },
        Trade::Buyback => Event::RebalanceBuyback {
            quote_spent: receipt.amount_in,
            received: receipt.amount_out,
            reserve_quote: receipt.reserve_quote,
            reserve_joule: receipt.reserve_joule,
        },
    }
}

/// What a step adds to the log. A mint is logged when it is done, after the
/// warning that it may call for. A buyback's warning is logged as soon as
/// the swap is accounted for, and the buyback itself once its proceeds are
/// burnt. No other step is logged.
pub open spec fn spec_step_events(step: Step) -> Seq<Event> {
    match step {
        Step::ReadJouleBalance(receipt) => spec_warning(receipt),
        Step::Done(receipt) => match receipt.trade {
            Trade::Mint => spec_warning(receipt).push(spec_trade_event(receipt)),
            Trade::Buyback => seq![spec_trade_event(receipt)],
        },
        _ => Seq::empty(),
    }
}

/// What a call adds to the log: the entries of its step, and nothing if it
/// is refused.
pub open spec fn spec_logged(answer: Result<Step, RebalancerError>) -> Seq<Event> {
    match answer {
        Ok(step) => spec_step_events(step),
        Err(_) => Seq::empty(),
    }
}

impl Observations {
    /// The oracle's price of the base token, once it has been read.
    pub open spec fn joule_usd(&self) -> i128 {
        match self.oracle_price {
            Some((price, _)) => price,
            None => 0,
        }
    }

    /// The pool's holding of the quote asset, once it has been read.
    pub open spec fn reserve_quote(&self) -> i128 {
        match self.reserves {
            Some((quote, _)) => quote,
            None => 0,
        }
    }

    /// The pool's holding of the base token, once it has been read.
    pub open spec fn reserve_joule(&self) -> i128 {
        match self.reserves {
            Some((_, joule)) => joule,
            None => 0,
        }
    }

    /// Nothing observed yet.
    pub fn new() -> (seen: Observations)
        ensures
            seen.oracle_price is None,
            seen.reserves is None,
            seen.quote_balance is None,
            seen.swap is None,
            seen.joule_balance is None,
    {
        Observations {
            oracle_price: None,
            reserves: None,
            quote_balance: None,
            swap: None,
            joule_balance: None,
        }
    }
}

impl Receipt {
    /// The swap brought less than the floor under its expectation.
    pub open spec fn spec_slippage_warning(&self) -> bool {
        self.amount_out < self.min_acceptable
    }

    /// Whether the swap brought less than the floor under its expectation.
    /// Such a trade stands all the same; the driver only reports it.
    pub fn slippage_warning(&self) -> (b: bool)
        ensures
            b == self.spec_slippage_warning(),
    {
        self.amount_out < self.min_acceptable
    }
}

/// Whether the last rebalance is too recent for another one.
pub fn cooldown_active(last: u32, cooldown: u32, now: u32) -> (b: bool)
    ensures
        b == spec_cooldown_active(last, cooldown, now),
{
    last > 0 && (now < last || now - last < cooldown)
}

/// Whether the oracle's price is older than allowed.
pub fn oracle_stale(now: u32, price_ledger: u32, max_stale: u32) -> (b: bool)
    ensures
        b == spec_oracle_stale(now, price_ledger, max_stale),
{
    now > price_ledger && now - price_ledger > max_stale
}

/// What is to be burnt of a holding of base tokens: all of it.
pub fn sweep(balance: i128) -> (burn: i128)
    ensures
        burn == spec_sweep(balance),
{
    if balance > 0 {
        balance
    } else {
        0
    }
}

/// Accounts for a swap that the pool answered with the net amounts
/// `amount0` and `amount1`: what came out, and what should have.
pub fn settle(
    trade: Trade,
    request: &SwapRequest,
    price_in: i128,
    price_out: i128,
    reserve_quote: i128,
    reserve_joule: i128,
    amount0: i128,
    amount1: i128,
) -> (r: Option<Receipt>)
    ensures
        r == spec_settle(
            trade,
            *request,
            price_in,
            price_out,
            reserve_quote,
            reserve_joule,
            (amount0, amount1),
        ),
{
    let amount_out: i128 = swap_output(request.zero_for_one, amount0, amount1)?;
    let (expected_out, min_acceptable) = expectation(request.amount_in, price_in, price_out)?;
    Some(
        Receipt {
            trade,
            amount_in: request.amount_in,
            amount_out,
            expected_out,
            min_acceptable,
            burn: 0,
            reserve_quote,
            reserve_joule,
        },
    )
}

/// Logs the warning that a receipt calls for, if any.
fn log_warning(receipt: &Receipt, events: &mut Vec<Event>)
    ensures
        final(events)@ == old(events)@ + spec_warning(*receipt),
{
    if receipt.slippage_warning() {
        events.push(
            Event::SlippageWarning {
                received: receipt.amount_out,
                expected: receipt.expected_out,
                min_acceptable: receipt.min_acceptable,
            },
        );
        assert(events@ =~= old(events)@ + spec_warning(*receipt));
    } else {
        assert(events@ =~= old(events)@ + spec_warning(*receipt));
    }
}

/// Logs the trade of a receipt.
fn log_trade(receipt: &Receipt, events: &mut Vec<Event>)
    ensures
        final(events)@ == old(events)@.push(spec_trade_event(*receipt)),
{
    match receipt.trade {
        Trade::Mint => events.push(
            Event::RebalanceMint {
                mint_amount: receipt.amount_in,
                received: receipt.amount_out,
                reserve_quote: receipt.reserve_quote,
                reserve_joule: receipt.reserve_joule,
            },
        ),
        Trade::Buyback => events.push(
            Event::RebalanceBuyback {
                quote_spent: receipt.amount_in,
                received: receipt.amount_out,
                reserve_quote: receipt.reserve_quote,
                reserve_joule: receipt.reserve_joule,
            },
        ),
    }
}

/// Logs what a step calls for.
fn log_step(step: &Step, events: &mut Vec<Event>)
    ensures
        final(events)@ == old(events)@ + spec_step_events(*step),
{
    match step {
        Step::ReadJouleBalance(receipt) => {
            log_warning(receipt, events);
        },
        Step::Done(receipt) => {
            match receipt.trade {
                Trade::Mint => {
                    log_warning(receipt, events);
                    log_trade(receipt, events);
                },
                Trade::Buyback => {
                    log_trade(receipt, events);
                },
            }
            assert(events@ =~= old(events)@ + spec_step_events(*step));
        },
        _ => {
            assert(events@ =~= old(events)@ + spec_step_events(*step));
        },
    }
}

impl Rebalancer {
    /// What a rebalance answers to a call in circumstances `ctx` after the
    /// observations `seen`.
    ///
    /// The checks come in a fixed order, and the first that fails decides:
    /// the controller is initialised; the caller is the oracle; the cooldown
    /// has passed; a quote price is configured; the oracle price is fresh;
    /// both reserves reach the minimum; the pool's price is outside the band.
    pub open spec fn spec_rebalance(&self, ctx: Context, seen: Observations) -> Result<
        Step,
        RebalancerError,
    > {
        match self.oracle_gate(ctx) {
            Err(e) => Err(e),
            Ok(c) => if spec_cooldown_active(
                self.last_rebalance_ledger,
                c.cooldown_ledgers,
                ctx.ledger,
            ) {
                Err(RebalancerError::CooldownActive)
            } else if c.quote_price <= 0 {
                Err(RebalancerError::QuotePriceNotSet)
            } else {
                match seen.oracle_price {
                    None => Ok(Step::ReadOraclePrice),
                    Some((joule_usd, price_ledger)) => if spec_oracle_stale(
                        ctx.ledger,
                        price_ledger,
                        c.max_stale_ledgers,
                    ) {
                        Err(RebalancerError::OracleStale)
                    } else {
                        match seen.reserves {
                            None => Ok(Step::ReadReserves),
                            Some((reserve_quote, reserve_joule)) => spec_decide(
                                c,
                                reserve_quote,
                                reserve_joule,
                                joule_usd,
                                seen,
                            ),
                        }
                    },
                }
            },
        }
    }

    /// The controller after that call: the ledger of the call is recorded if
    /// the rebalance went through, and nothing changes otherwise.
    pub open spec fn spec_after_rebalance(&self, ctx: Context, seen: Observations) -> Rebalancer {
        if self.spec_rebalance(ctx, seen) matches Ok(Step::Done(_)) {
            Rebalancer { last_rebalance_ledger: ctx.ledger, ..*self }
        } else {
            *self
        }
    }

    /// Takes the next decision of a rebalance.
    ///
    /// Compares the pool's price with the oracle's and, where it lies outside
    /// the band, orders the mint or the buyback that corrects it. Answers
    /// with the next thing for the driver to do, with `Step::Done` once the
    /// trade is accounted for, or with the reason for refusing. Only
    /// `Step::Done` changes the controller: it records the ledger of the
    /// call, from which the cooldown runs. The trade, and the warning that a
    /// bad fill calls for, are logged by the call that accounts for them.
    pub fn rebalance(&mut self, ctx: &Context, seen: &Observations, events: &mut Vec<Event>) -> (r:
        Result<Step, RebalancerError>)
        ensures
            r == old(self).spec_rebalance(*ctx, *seen),
            *final(self) == old(self).spec_after_rebalance(*ctx, *seen),
            final(events)@ == old(events)@ + spec_logged(r),
            old(self).wf() ==> final(self).wf(),
    {
        proof {
            assert(old(events)@ + Seq::<Event>::empty() =~= old(events)@);
        }
        let c = self.require_oracle(ctx)?;
        if cooldown_active(self.last_rebalance_ledger, c.cooldown_ledgers, ctx.ledger) {
            return Err(RebalancerError::CooldownActive);
        }
        if c.quote_price <= 0 {
            return Err(RebalancerError::QuotePriceNotSet);
        }
        let (joule_usd, price_ledger) = match seen.oracle_price {
            None => {
                return Ok(Step::ReadOraclePrice);
            },
            Some(p) => p,
        };
        if oracle_stale(ctx.ledger, price_ledger, c.max_stale_ledgers) {
            return Err(RebalancerError::OracleStale);
        }
        let (reserve_quote, reserve_joule) = match seen.reserves {
            None => {
                return Ok(Step::ReadReserves);
            },
            Some(p) => p,
        };
        if reserve_quote < c.min_reserve || reserve_joule < c.min_reserve {
            return Err(RebalancerError::PoolEmpty);
        }
        let side = match deviation(
            reserve_quote,
            reserve_joule,
            c.quote_price,
            joule_usd,
            c.upper_bps,
            c.lower_bps,
        ) {
            None => {
                return Ok(Step::Overflow);
            },
            Some(d) => d,
        };
        let step = match side {
            Deviation::Overpriced => Self::do_mint_rebalance(
                &c,
                reserve_quote,
                reserve_joule,
                joule_usd,
                seen,
            )?,
            Deviation::Underpriced => Self::do_buyback_rebalance(
                &c,
                reserve_quote,
                reserve_joule,
                joule_usd,
                seen,
            )?,
            Deviation::InBand => {
                return Err(RebalancerError::NoRebalanceNeeded);
            },
        };
        if let Step::Done(_) = step {
            self.last_rebalance_ledger = ctx.ledger;
        }
        log_step(&step, events);
        Ok(step)
    }

    /// The mint branch, for a pool that prices the base token above the
    /// band. Aims at the middle of the upper band, holds the mint to its
    /// budget, and leaves the proceeds with the controller.
    pub fn do_mint_rebalance(
        c: &Config,
        reserve_quote: i128,
        reserve_joule: i128,
        joule_usd: i128,
        seen: &Observations,
    ) -> (r: Result<Step, RebalancerError>)
        ensures
            r == spec_mint_rebalance(*c, reserve_quote, reserve_joule, joule_usd, *seen),
    {
        let raw: i128 = match mint_amount(
            reserve_quote,
            reserve_joule,
            c.quote_price,
            joule_usd,
            c.upper_bps,
        ) {
            None => {
                return Ok(Step::Overflow);
            },
            Some(v) => v,
        };
        let amount: i128 = match capped(raw, c.max_mint) {
            None => {
                return Err(RebalancerError::NoRebalanceNeeded);
            },
            Some(v) => v,
        };
        let request = swap_request(
            c.joule_token,
            c.joule_is_token0,
            c.joule_token,
            c.quote_token,
            amount,
        );
        let (amount0, amount1) = match seen.swap {
            None => {
                return Ok(Step::MintAndSell(request));
            },
            Some(p) => p,
        };
        match settle(
            Trade::Mint,
            &request,
            joule_usd,
            c.quote_price,
            reserve_quote,
            reserve_joule,
            amount0,
            amount1,
        ) {
            None => Ok(Step::Overflow),
            Some(receipt) => Ok(Step::Done(receipt)),
        }
    }

    /// The buyback branch, for a pool that prices the base token below the
    /// band. Aims at the oracle price itself, holds the spend to its budget
    /// and to what the controller holds, and burns every base token that the
    /// controller holds afterwards.
    pub fn do_buyback_rebalance(
        c: &Config,
        reserve_quote: i128,
        reserve_joule: i128,
        joule_usd: i128,
        seen: &Observations,
    ) -> (r: Result<Step, RebalancerError>)
        ensures
            r == spec_buyback_rebalance(*c, reserve_quote, reserve_joule, joule_usd, *seen),
    {
        let raw: i128 = match buyback_amount(
            reserve_quote,
            reserve_joule,
            c.quote_price,
            joule_usd,
        ) {
            None => {
                return Ok(Step::Overflow);
            },
            Some(v) => v,
        };
        let spend: i128 = match capped(raw, c.max_quote_spend) {
            None => {
                return Err(RebalancerError::NoRebalanceNeeded);
            },
            Some(v) => v,
        };
        let balance: i128 = match seen.quote_balance {
            None => {
                return Ok(Step::ReadQuoteBalance);
            },
            Some(v) => v,
        };
        if balance < spend {
            return Err(RebalancerError::InsufficientQuote);
        }
        let request = swap_request(
            c.joule_token,
            c.joule_is_token0,
            c.quote_token,
            c.joule_token,
            spend,
        );
        let (amount0, amount1) = match seen.swap {
            None => {
                return Ok(Step::Buy(request));
            },
            Some(p) => p,
        };
        let receipt = match settle(
            Trade::Buyback,
            &request,
            c.quote_price,
            joule_usd,
            reserve_quote,
            reserve_joule,
            amount0,
            amount1,
        ) {
            None => {
                return Ok(Step::Overflow);
            },
            Some(v) => v,
        };
        match seen.joule_balance {
            None => Ok(Step::ReadJouleBalance(receipt)),
            Some(held) => Ok(Step::Done(Receipt { burn: sweep(held), ..receipt })),
        }
    }
}

impl Rebalancer {
    /// The call gets as far as the comparison of prices: the controller is
    /// initialised, the caller is its oracle, no cooldown is running, a quote
    /// price is set, the oracle price has been read and is fresh, and both
    /// reserves have been read and reach the minimum.
    pub open spec fn reaches_comparison(&self, ctx: Context, seen: Observations) -> bool {
        &&& self.oracle_gate(ctx) matches Ok(c)
        &&& !spec_cooldown_active(self.last_rebalance_ledger, c.cooldown_ledgers, ctx.ledger)
        &&& c.quote_price > 0
        &&& seen.oracle_price matches Some((joule_usd, price_ledger))
        &&& !spec_oracle_stale(ctx.ledger, price_ledger, c.max_stale_ledgers)
        &&& seen.reserves matches Some((reserve_quote, reserve_joule))
        &&& reserve_quote >= c.min_reserve
        &&& reserve_joule >= c.min_reserve
    }

    /// A pool that stands exactly on an edge of the band is left alone: the
    /// call is refused with `NoRebalanceNeeded`. One unit above the upper
    /// edge the call takes the mint branch, one unit below the lower edge the
    /// buyback branch.
    pub proof fn law_band_edges_decide(self, ctx: Context, seen: Observations)
        requires
            self.wf(),
            self.reaches_comparison(ctx, seen),
            deviation_fits(
                seen.reserve_quote() as int,
                seen.reserve_joule() as int,
                self.config->0.quote_price as int,
                seen.joule_usd() as int,
                self.config->0.upper_bps as int,
                self.config->0.lower_bps as int,
            ),
        ensures
            ({
                let c = self.config->0;
                let reserve_quote = seen.reserve_quote();
                let reserve_joule = seen.reserve_joule();
                let joule_usd = seen.joule_usd();
                let value = pool_value(reserve_quote as int, c.quote_price as int);
                let upper = oracle_value(
                    joule_usd as int,
                    reserve_joule as int,
                    10_000 + c.upper_bps,
                );
                let lower = oracle_value(
                    joule_usd as int,
                    reserve_joule as int,
                    10_000 - c.lower_bps,
                );
                &&& value == upper || value == lower ==> self.spec_rebalance(ctx, seen) == Err::<
                    Step,
                    RebalancerError,
                >(RebalancerError::NoRebalanceNeeded)
                &&& value == upper + 1 ==> self.spec_rebalance(ctx, seen) == spec_mint_rebalance(
                    c,
                    reserve_quote,
                    reserve_joule,
                    joule_usd,
                    seen,
                )
                &&& value == lower - 1 ==> self.spec_rebalance(ctx, seen) == spec_buyback_rebalance(
                    c,
                    reserve_quote,
                    reserve_joule,
                    joule_usd,
                    seen,
                )
            }),
    {
        let c = self.config->0;
        let reserve_quote = seen.reserve_quote();
        let reserve_joule = seen.reserve_joule();
        let joule_usd = seen.joule_usd();
        if joule_usd >= 0 {
            law_band_edges(
                reserve_quote as int,
                reserve_joule as int,
                c.quote_price as int,
                joule_usd as int,
                c.upper_bps as int,
                c.lower_bps as int,
            );
        } else {
            // Under a negative oracle price both edges lie below zero and
            // the pool's value above it: the pool stands on neither edge,
            // nor one unit from one.
            let value = pool_value(reserve_quote as int, c.quote_price as int);
            let held = joule_usd * reserve_joule;
            assert(10_000 <= value) by (nonlinear_arith)
                requires
                    0 < reserve_quote,
                    0 < c.quote_price,
                    value == reserve_quote * c.quote_price * 10_000,
            ;
            assert(held < 0) by (nonlinear_arith)
                requires
                    joule_usd < 0,
                    0 < reserve_joule,
                    held == joule_usd * reserve_joule,
            ;
            assert(held * (10_000 + c.upper_bps) < 0) by (nonlinear_arith)
                requires
                    held < 0,
                    0 < 10_000 + c.upper_bps,
            ;
            assert(held * (10_000 - c.lower_bps) < 0) by (nonlinear_arith)
                requires
                    held < 0,
                    0 < 10_000 - c.lower_bps,
            ;
        }
    }

    /// No rebalance orders more than its budget: a mint never exceeds the
    /// largest mint per call, and a buyback never spends more than the
    /// largest quote spend per call. Under a configuration that keeps its
    /// bounds, what is ordered is positive as well.
    pub proof fn law_budgets(self, ctx: Context, seen: Observations)
        ensures
            self.spec_rebalance(ctx, seen) matches Ok(Step::MintAndSell(request))
                ==> request.amount_in <= self.config->0.max_mint && (self.wf() ==> 0
                < request.amount_in),
            self.spec_rebalance(ctx, seen) matches Ok(Step::Buy(request)) ==> request.amount_in
                <= self.config->0.max_quote_spend && (self.wf() ==> 0 < request.amount_in),
            self.spec_rebalance(ctx, seen) matches Ok(Step::Done(receipt)) ==> receipt.amount_in
                <= (match receipt.trade {
                Trade::Mint => self.config->0.max_mint,
                Trade::Buyback => self.config->0.max_quote_spend,
            }) && (self.wf() ==> 0 < receipt.amount_in),
    {
    }

    /// A buyback that went through burns the whole of what the controller
    /// held of the base token, which leaves it with none; and it was funded:
    /// the controller held at least what was spent. A mint burns nothing.
    pub proof fn law_buyback_sweeps(self, ctx: Context, seen: Observations)
        requires
            self.spec_rebalance(ctx, seen) matches Ok(Step::Done(_)),
        ensures
            ({
                let receipt = self.spec_rebalance(ctx, seen)->Ok_0->Done_0;
                &&& receipt.trade == Trade::Mint ==> receipt.burn == 0
                &&& receipt.trade == Trade::Buyback ==> {
                    &&& seen.joule_balance matches Some(held)
                    &&& held >= 0 ==> held - receipt.burn == 0
                    &&& seen.quote_balance matches Some(funds)
                    &&& funds >= receipt.amount_in
                }
            }),
    {
    }

    /// After a rebalance that went through at a ledger other than 0, every
    /// call by the oracle within the cooldown is refused with
    /// `CooldownActive`, and no call from the end of the cooldown on is.
    pub proof fn law_cooldown(
        self,
        first: Context,
        seen_first: Observations,
        second: Context,
        seen_second: Observations,
    )
        requires
            self.spec_rebalance(first, seen_first) matches Ok(Step::Done(_)),
            first.ledger > 0,
            second.caller == self.config->0.oracle,
        ensures
            ({
                let after = self.spec_after_rebalance(first, seen_first);
                let cooldown = self.config->0.cooldown_ledgers;
                &&& after.last_rebalance_ledger == first.ledger
                &&& second.ledger - first.ledger < cooldown ==> after.spec_rebalance(
                    second,
                    seen_second,
                ) == Err::<Step, RebalancerError>(RebalancerError::CooldownActive)
                &&& second.ledger - first.ledger >= cooldown ==> after.spec_rebalance(
                    second,
                    seen_second,
                ) != Err::<Step, RebalancerError>(RebalancerError::CooldownActive)
            }),
    {
    }

    /// A call that is refused, or that only asks for the next observation,
    /// leaves the controller as it was.
    pub proof fn law_only_done_changes(self, ctx: Context, seen: Observations)
        ensures
            !(self.spec_rebalance(ctx, seen) matches Ok(Step::Done(_)))
                ==> self.spec_after_rebalance(ctx, seen) == self,
            self.spec_after_rebalance(ctx, seen).config == self.config,
    {
    }
}

} // verus!
