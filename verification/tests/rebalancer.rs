use joule_peg::account::{Address, Context};
use joule_peg::events::Event;
use joule_peg::math::isqrt;
use joule_peg::rebalance::{Observations, Step};
use joule_peg::rebalancer::{
    Rebalancer, RebalancerError, DEFAULT_COOLDOWN_LEDGERS, DEFAULT_MAX_STALE_LEDGERS,
    DEFAULT_MIN_RESERVE,
};
use joule_peg::swap::SwapRequest;
use joule_peg::token::JouleToken;

// ─── A ledger, a token and a pool to rebalance against ──────────

/// Balances of one token, by holder.
struct Balances(Vec<(Address, i128)>);

impl Balances {
    fn balance(&self, id: Address) -> i128 {
        self.0.iter().find(|(a, _)| *a == id).map(|(_, b)| *b).unwrap_or(0)
    }

    fn set(&mut self, id: Address, amount: i128) {
        match self.0.iter_mut().find(|(a, _)| *a == id) {
            Some(entry) => entry.1 = amount,
            None => self.0.push((id, amount)),
        }
    }

    fn mint(&mut self, to: Address, amount: i128) {
        let prev = self.balance(to);
        self.set(to, prev + amount);
    }

    fn burn(&mut self, from: Address, amount: i128) {
        let bal = self.balance(from);
        assert!(bal >= amount, "insufficient balance to burn");
        self.set(from, bal - amount);
    }

    fn transfer(&mut self, from: Address, to: Address, amount: i128) {
        let from_bal = self.balance(from);
        assert!(from_bal >= amount, "insufficient balance");
        self.set(from, from_bal - amount);
        let to_bal = self.balance(to);
        self.set(to, to_bal + amount);
    }
}

#[allow(dead_code)]
struct TestEnv {
    ledger: u32,
    rebalancer_id: Address,
    rebalancer: Rebalancer,
    joule_id: Address,
    /// The token's feed and totals; its oracle is the rebalancer.
    joule_token: JouleToken,
    joule: Balances,
    pool_id: Address,
    router_id: Address,
    quote_id: Address,
    quote: Balances,
    oracle: Address,
    owner: Address,
    /// What the token and the controller have logged.
    log: Vec<Event>,
}

fn set_ledger(t: &mut TestEnv, sequence: u32) {
    t.ledger = sequence;
}

impl TestEnv {
    fn as_oracle(&self) -> Context {
        Context::new(self.oracle, self.ledger)
    }

    fn as_owner(&self) -> Context {
        Context::new(self.owner, self.ledger)
    }

    fn as_rebalancer(&self) -> Context {
        Context::new(self.rebalancer_id, self.ledger)
    }

    /// The token's feed takes a price from its oracle, the rebalancer.
    fn joule_set_price(&mut self, price: i128, nonce: u64) {
        let ctx = self.as_rebalancer();
        self.joule_token.set_price(&ctx, price, nonce, &mut self.log).unwrap();
    }

    fn joule_total_burned(&self) -> i128 {
        self.joule_token.total_burned()
    }

    /// The pool executes a swap: constant product, 0.3% fee. Token 0 is the
    /// base token, token 1 the quote asset. Returns the two net amounts:
    /// positive is paid in, negative is paid out.
    fn pool_swap(&mut self, request: &SwapRequest) -> (i128, i128) {
        let reserve0 = self.joule.balance(self.pool_id);
        let reserve1 = self.quote.balance(self.pool_id);
        let (reserve_in, reserve_out) = if request.zero_for_one {
            (reserve0, reserve1)
        } else {
            (reserve1, reserve0)
        };

        let amount_in = request.amount_in;
        let amount_in_with_fee = amount_in * 997;
        let numerator = reserve_out * amount_in_with_fee;
        let denominator = reserve_in * 1000 + amount_in_with_fee;
        let amount_out = numerator / denominator;

        assert!(amount_out > 0, "swap output is zero");

        let (sender, pool) = (self.rebalancer_id, self.pool_id);
        if request.zero_for_one {
            assert_eq!(request.token_in, self.joule_id);
            assert_eq!(request.token_out, self.quote_id);
            self.joule.transfer(sender, pool, amount_in);
            self.quote.transfer(pool, sender, amount_out);
            (amount_in, -amount_out)
        } else {
            assert_eq!(request.token_in, self.quote_id);
            assert_eq!(request.token_out, self.joule_id);
            self.quote.transfer(sender, pool, amount_in);
            self.joule.transfer(pool, sender, amount_out);
            (-amount_out, amount_in)
        }
    }

    /// Drives one rebalance to its end: reads what the controller asks for,
    /// does what it orders, and hands the answers back.
    fn try_rebalance(&mut self) -> Result<(), RebalancerError> {
        let ctx = self.as_oracle();
        let mut seen = Observations::new();
        loop {
            match self.rebalancer.rebalance(&ctx, &seen, &mut self.log)? {
                Step::ReadOraclePrice => {
                    seen.oracle_price = Some(self.joule_token.get_price().expect("Price not set"));
                }
                Step::ReadReserves => {
                    seen.reserves = Some((
                        self.quote.balance(self.pool_id),
                        self.joule.balance(self.pool_id),
                    ));
                }
                Step::ReadQuoteBalance => {
                    seen.quote_balance = Some(self.quote.balance(self.rebalancer_id));
                }
                Step::MintAndSell(request) => {
                    let as_minter = self.as_rebalancer();
                    self.joule_token
                        .oracle_mint(&as_minter, self.rebalancer_id, request.amount_in, &mut self.log)
                        .unwrap();
                    self.joule.mint(self.rebalancer_id, request.amount_in);
                    seen.swap = Some(self.pool_swap(&request));
                }
                Step::Buy(request) => {
                    seen.swap = Some(self.pool_swap(&request));
                }
                Step::ReadJouleBalance(_) => {
                    seen.joule_balance = Some(self.joule.balance(self.rebalancer_id));
                }
                Step::Done(receipt) => {
                    if receipt.burn > 0 {
                        let as_holder = self.as_rebalancer();
                        self.joule_token
                            .burn_for_compute(
                                &as_holder,
                                self.rebalancer_id,
                                receipt.burn,
                                &mut self.log,
                            )
                            .unwrap();
                        self.joule.burn(self.rebalancer_id, receipt.burn);
                    }
                    return Ok(());
                }
                Step::Overflow => panic!("attempt to multiply with overflow"),
            }
        }
    }

    fn rebalance(&mut self) {
        self.try_rebalance().unwrap();
    }

    fn set_params(
        &mut self,
        upper_bps: u32,
        lower_bps: u32,
        max_mint: i128,
        max_quote_spend: i128,
        cooldown_ledgers: u32,
        min_reserve: i128,
    ) {
        let ctx = self.as_owner();
        self.rebalancer
            .set_params(
                &ctx,
                upper_bps,
                lower_bps,
                max_mint,
                max_quote_spend,
                cooldown_ledgers,
                min_reserve,
                &mut self.log,
            )
            .unwrap();
    }
}

fn setup_test(
    initial_reserve_joule: i128,
    initial_reserve_quote: i128,
    oracle_price: i128,
    quote_price: i128,
) -> TestEnv {
    let oracle = Address::new(1, 1);
    let owner = Address::new(1, 2);
    let joule_id = Address::new(2, 1);
    let pool_id = Address::new(2, 2);
    let router_id = Address::new(2, 3);
    let quote_id = Address::new(2, 4);
    let rebalancer_id = Address::new(2, 5);

    // The oracle of the token is the rebalancer.
    let mut t = TestEnv {
        ledger: 100,
        rebalancer_id,
        rebalancer: Rebalancer::new(),
        joule_id,
        joule_token: JouleToken::initialize(owner, rebalancer_id),
        joule: Balances(Vec::new()),
        pool_id,
        router_id,
        quote_id,
        quote: Balances(Vec::new()),
        oracle,
        owner,
        log: Vec::new(),
    };

    t.joule_set_price(oracle_price, 1u64);

    // Seed pool with initial reserves
    if initial_reserve_joule > 0 {
        t.joule.mint(pool_id, initial_reserve_joule);
    }
    if initial_reserve_quote > 0 {
        t.quote.mint(pool_id, initial_reserve_quote);
    }

    t.rebalancer
        .initialize(
            joule_id, pool_id, quote_id, oracle, owner, true, // joule_is_token0
            router_id, // router
            3000u32,   // pool_fee (0.3%)
            &mut t.log,
        )
        .unwrap();

    if quote_price > 0 {
        let ctx = t.as_oracle();
        t.rebalancer.set_quote_price(&ctx, quote_price, &mut t.log).unwrap();
    }

    t
}

/// pool_price = reserve_quote * quote_usd / reserve_joule
/// So reserve_joule = reserve_quote * quote_usd / target_pool_price
fn joule_reserves_for_price(reserve_quote: i128, quote_usd: i128, target_pool_price: i128) -> i128 {
    reserve_quote * quote_usd / target_pool_price
}

struct Parties {
    joule: Address,
    pool: Address,
    quote: Address,
    oracle: Address,
    owner: Address,
    router: Address,
}

fn parties() -> Parties {
    Parties {
        joule: Address::new(7, 1),
        pool: Address::new(7, 2),
        quote: Address::new(7, 3),
        oracle: Address::new(7, 4),
        owner: Address::new(7, 5),
        router: Address::new(7, 6),
    }
}

fn initialized(p: &Parties) -> Rebalancer {
    let mut r = Rebalancer::new();
    r.initialize(
        p.joule,
        p.pool,
        p.quote,
        p.oracle,
        p.owner,
        true,
        p.router,
        3000u32,
        &mut Vec::new(),
    )
    .unwrap();
    r
}

// ─── Basic Tests ────────────────────────────────────────────────

#[test]
fn test_isqrt() {
    assert_eq!(isqrt(0), 0);
    assert_eq!(isqrt(1), 1);
    assert_eq!(isqrt(2), 1);
    assert_eq!(isqrt(4), 2);
    assert_eq!(isqrt(9), 3);
    assert_eq!(isqrt(10), 3);
    assert_eq!(isqrt(100), 10);
    assert_eq!(isqrt(1_000_000), 1_000);
    assert_eq!(isqrt(1_000_000_000_000_000_000), 1_000_000_000);
    assert_eq!(isqrt(49), 7);
    assert_eq!(isqrt(10000), 100);
    assert_eq!(isqrt(i128::MAX / 2), 9_223_372_036_854_775_807);
}

#[test]
fn test_isqrt_edge_cases() {
    assert_eq!(isqrt(-1), 0);
    assert_eq!(isqrt(-100), 0);
    assert_eq!(isqrt(0), 0);
    assert_eq!(isqrt(1), 1);
    assert_eq!(isqrt(2), 1);
    assert_eq!(isqrt(3), 1);
}

#[test]
fn test_initialize() {
    let p = parties();
    let client = initialized(&p);

    let config = client.get_config().unwrap();
    assert_eq!(config.joule_token, p.joule);
    assert_eq!(config.pool, p.pool);
    assert_eq!(config.quote_token, p.quote);
    assert_eq!(config.oracle, p.oracle);
    assert_eq!(config.owner, p.owner);
    assert_eq!(config.upper_bps, 500);
    assert_eq!(config.lower_bps, 500);
    assert!(config.joule_is_token0);
    assert_eq!(config.max_stale_ledgers, DEFAULT_MAX_STALE_LEDGERS);
    assert_eq!(config.cooldown_ledgers, DEFAULT_COOLDOWN_LEDGERS);
    assert_eq!(config.min_reserve, DEFAULT_MIN_RESERVE);
    assert_eq!(config.router, p.router);
    assert_eq!(config.pool_fee, 3000);
}

#[test]
#[should_panic(expected = "Already initialized")]
fn test_double_initialize() {
    let p = parties();
    let mut client = Rebalancer::new();
    let mut log = Vec::new();
    client
        .initialize(p.joule, p.pool, p.quote, p.oracle, p.owner, true, p.router, 3000u32, &mut log)
        .expect("Already initialized");
    client
        .initialize(p.joule, p.pool, p.quote, p.oracle, p.owner, true, p.router, 3000u32, &mut log)
        .expect("Already initialized");
}

#[test]
fn test_set_quote_price() {
    let p = parties();
    let mut client = initialized(&p);
    client.set_quote_price(&Context::new(p.oracle, 0), 10_000_000i128, &mut Vec::new()).unwrap();
    let config = client.get_config().unwrap();
    assert_eq!(config.quote_price, 10_000_000);
}

#[test]
fn test_set_params() {
    let p = parties();
    let mut client = initialized(&p);
    client
        .set_params(
            &Context::new(p.owner, 0),
            300u32,
            300u32,
            50_000_000_000i128,
            25_000_000_000i128,
            20u32,
            20_000_000i128,
            &mut Vec::new(),
        )
        .unwrap();
    let config = client.get_config().unwrap();
    assert_eq!(config.upper_bps, 300);
    assert_eq!(config.lower_bps, 300);
    assert_eq!(config.max_mint, 50_000_000_000);
    assert_eq!(config.max_quote_spend, 25_000_000_000);
    assert_eq!(config.cooldown_ledgers, 20);
    assert_eq!(config.min_reserve, 20_000_000);
}

#[test]
fn test_set_pool() {
    let p = parties();
    let mut client = initialized(&p);
    let new_pool = Address::new(8, 1);
    let new_router = Address::new(8, 2);
    client
        .set_pool(&Context::new(p.owner, 0), new_pool, false, new_router, 10000u32, &mut Vec::new())
        .unwrap();
    let config = client.get_config().unwrap();
    assert_eq!(config.pool, new_pool);
    assert!(!config.joule_is_token0);
    assert_eq!(config.router, new_router);
    assert_eq!(config.pool_fee, 10000);
}

// ─── Basic Rebalance Flow ───────────────────────────────────────

/// 3% deviation (within 5% band) — NoRebalanceNeeded
#[test]
fn test_no_rebalance_within_band() {
    let oracle_price: i128 = 10_000;
    let quote_price: i128 = 10_000_000;
    let reserve_quote = 1_000_0000000i128;
    // 3% overpriced: pool_price = 10300
    let reserve_joule = joule_reserves_for_price(reserve_quote, quote_price, 10_300);
    let mut t = setup_test(reserve_joule, reserve_quote, oracle_price, quote_price);
    let result = t.try_rebalance();
    assert_eq!(result, Err(RebalancerError::NoRebalanceNeeded));
}

/// Pool 10% above oracle — mint rebalance (mints JOULE, swaps through pool)
#[test]
fn test_mint_rebalance_overpriced() {
    let oracle_price: i128 = 10_000;
    let quote_price: i128 = 10_000_000;
    let reserve_quote = 1_000_0000000i128;
    // 10% overpriced: pool_price = 11000
    let reserve_joule = joule_reserves_for_price(reserve_quote, quote_price, 11_000);
    let mut t = setup_test(reserve_joule, reserve_quote, oracle_price, quote_price);
    let pool_joule_before = t.joule.balance(t.pool_id);
    t.rebalance();
    let pool_joule_after = t.joule.balance(t.pool_id);
    // After swap, pool should have more JOULE (rebalancer sold JOULE into pool)
    assert!(pool_joule_after > pool_joule_before, "Pool should have more JOULE after mint rebalance");
}

/// Pool 10% below oracle — buyback rebalance (buys JOULE + burns)
#[test]
fn test_buyback_rebalance_underpriced() {
    let oracle_price: i128 = 10_000;
    let quote_price: i128 = 10_000_000;
    let reserve_quote = 1_000_0000000i128;
    // 10% underpriced: pool_price = 9000
    let reserve_joule = joule_reserves_for_price(reserve_quote, quote_price, 9_000);
    let mut t = setup_test(reserve_joule, reserve_quote, oracle_price, quote_price);
    t.quote.mint(t.rebalancer_id, 500_0000000i128);
    let quote_before = t.quote.balance(t.rebalancer_id);
    t.rebalance();
    let quote_after = t.quote.balance(t.rebalancer_id);
    assert!(quote_after < quote_before, "USDC should have been spent on buyback");
    // Rebalancer should have burned all received JOULE
    let rebalancer_joule = t.joule.balance(t.rebalancer_id);
    assert_eq!(rebalancer_joule, 0, "All received JOULE should be burned");
}

/// Large deviation, mint capped at max_mint
#[test]
fn test_mint_capped_at_max() {
    let oracle_price: i128 = 10_000;
    let quote_price: i128 = 10_000_000;
    let reserve_quote = 1_000_0000000i128;
    // 50% overpriced: pool_price = 15000
    let reserve_joule = joule_reserves_for_price(reserve_quote, quote_price, 15_000);
    let mut t = setup_test(reserve_joule, reserve_quote, oracle_price, quote_price);
    let small_max = 50_000_000i128; // 5 JOULE
    t.set_params(500u32, 500u32, small_max, 50_000_000_000i128, 12u32, 10_000_000i128);
    let pool_joule_before = t.joule.balance(t.pool_id);
    t.rebalance();
    let pool_joule_after = t.joule.balance(t.pool_id);
    let added_to_pool = pool_joule_after - pool_joule_before;
    // The pool takes amount_in from the sender, so it receives exactly small_max
    assert_eq!(added_to_pool, small_max, "Pool JOULE increase should equal capped mint amount");
}

/// Large deviation, buyback spend capped at max_quote_spend
#[test]
fn test_buyback_capped_at_max() {
    let oracle_price: i128 = 10_000;
    let quote_price: i128 = 10_000_000;
    let reserve_quote = 1_000_0000000i128;
    // 50% underpriced: pool_price = 5000
    let reserve_joule = joule_reserves_for_price(reserve_quote, quote_price, 5_000);
    let mut t = setup_test(reserve_joule, reserve_quote, oracle_price, quote_price);
    let small_max_spend = 10_000_000i128;
    t.quote.mint(t.rebalancer_id, 500_0000000i128);
    t.set_params(500u32, 500u32, 100_000_000_000i128, small_max_spend, 12u32, 10_000_000i128);
    let quote_before = t.quote.balance(t.rebalancer_id);
    t.rebalance();
    let quote_after = t.quote.balance(t.rebalancer_id);
    let spent = quote_before - quote_after;
    assert!(spent <= small_max_spend, "Spend should not exceed max_quote_spend");
}

/// Buyback but rebalancer has no USDC — InsufficientQuote
#[test]
fn test_buyback_insufficient_quote() {
    let oracle_price: i128 = 10_000;
    let quote_price: i128 = 10_000_000;
    let reserve_quote = 1_000_0000000i128;
    // 10% underpriced
    let reserve_joule = joule_reserves_for_price(reserve_quote, quote_price, 9_000);
    let mut t = setup_test(reserve_joule, reserve_quote, oracle_price, quote_price);
    // Don't fund the rebalancer
    let result = t.try_rebalance();
    assert_eq!(result, Err(RebalancerError::InsufficientQuote));
}

// ─── Threshold Edge Cases ───────────────────────────────────────

/// Exactly at upper threshold — NoRebalanceNeeded
#[test]
fn test_exactly_at_upper_threshold() {
    let oracle_price: i128 = 10_000;
    let quote_price: i128 = 10_000_000;
    let reserve_quote = 1_000_0000000i128;
    // +1 because integer division truncates, making pool slightly more overpriced
    let reserve_joule = reserve_quote * quote_price * 10_000 / (oracle_price * 10_500) + 1;
    let mut t = setup_test(reserve_joule, reserve_quote, oracle_price, quote_price);
    let result = t.try_rebalance();
    assert_eq!(result, Err(RebalancerError::NoRebalanceNeeded));
}

/// Just above upper threshold — triggers mint
#[test]
fn test_just_above_upper_threshold() {
    let oracle_price: i128 = 10_000;
    let quote_price: i128 = 10_000_000;
    let reserve_quote = 1_000_0000000i128;
    let reserve_joule = reserve_quote * quote_price * 10_000 / (oracle_price * 10_500) - 1_000_000;
    let mut t = setup_test(reserve_joule, reserve_quote, oracle_price, quote_price);
    t.rebalance();
}

/// Exactly at lower threshold — NoRebalanceNeeded
#[test]
fn test_exactly_at_lower_threshold() {
    let oracle_price: i128 = 10_000;
    let quote_price: i128 = 10_000_000;
    let reserve_quote = 1_000_0000000i128;
    let reserve_joule = reserve_quote * quote_price * 10_000 / (oracle_price * 9_500);
    let mut t = setup_test(reserve_joule, reserve_quote, oracle_price, quote_price);
    let result = t.try_rebalance();
    assert_eq!(result, Err(RebalancerError::NoRebalanceNeeded));
}

/// Just below lower threshold — triggers buyback
#[test]
fn test_just_below_lower_threshold() {
    let oracle_price: i128 = 10_000;
    let quote_price: i128 = 10_000_000;
    let reserve_quote = 1_000_0000000i128;
    let reserve_joule = reserve_quote * quote_price * 10_000 / (oracle_price * 9_500) + 1_000_000;
    let mut t = setup_test(reserve_joule, reserve_quote, oracle_price, quote_price);
    t.quote.mint(t.rebalancer_id, 500_0000000i128);
    t.rebalance();
}

// ─── Safety Mechanisms ──────────────────────────────────────────

/// Stale oracle rejected
#[test]
fn test_stale_oracle_rejected() {
    let oracle_price: i128 = 10_000;
    let quote_price: i128 = 10_000_000;
    let reserve_quote = 1_000_0000000i128;
    let reserve_joule = joule_reserves_for_price(reserve_quote, quote_price, 15_000);
    let mut t = setup_test(reserve_joule, reserve_quote, oracle_price, quote_price);
    set_ledger(&mut t, 1200);
    let result = t.try_rebalance();
    assert_eq!(result, Err(RebalancerError::OracleStale));
}

/// Fresh oracle accepted
#[test]
fn test_fresh_oracle_accepted() {
    let oracle_price: i128 = 10_000;
    let quote_price: i128 = 10_000_000;
    let reserve_quote = 1_000_0000000i128;
    let reserve_joule = joule_reserves_for_price(reserve_quote, quote_price, 15_000);
    let mut t = setup_test(reserve_joule, reserve_quote, oracle_price, quote_price);
    set_ledger(&mut t, 600);
    t.rebalance();
}

/// Cooldown blocks rapid rebalance
#[test]
fn test_cooldown_blocks_rapid_rebalance() {
    let oracle_price: i128 = 10_000;
    let quote_price: i128 = 10_000_000;
    let reserve_quote = 1_000_0000000i128;
    let reserve_joule = joule_reserves_for_price(reserve_quote, quote_price, 15_000);
    let mut t = setup_test(reserve_joule, reserve_quote, oracle_price, quote_price);
    t.rebalance();
    set_ledger(&mut t, 105);
    t.joule_set_price(oracle_price, 2u64);
    let result = t.try_rebalance();
    assert_eq!(result, Err(RebalancerError::CooldownActive));
}

/// Cooldown expires — rebalance works again
#[test]
fn test_cooldown_expires() {
    let oracle_price: i128 = 10_000;
    let quote_price: i128 = 10_000_000;
    let reserve_quote = 1_000_0000000i128;
    let reserve_joule = joule_reserves_for_price(reserve_quote, quote_price, 15_000);
    let mut t = setup_test(reserve_joule, reserve_quote, oracle_price, quote_price);
    t.rebalance();
    set_ledger(&mut t, 115);
    t.joule_set_price(oracle_price, 2u64);
    let result = t.try_rebalance();
    assert!(
        result != Err(RebalancerError::CooldownActive),
        "Should not be blocked by cooldown after expiry"
    );
}

/// Minimum reserve check — tiny reserves — PoolEmpty
#[test]
fn test_min_reserve_check() {
    let oracle_price: i128 = 10_000;
    let quote_price: i128 = 10_000_000;
    let reserve_quote = 100i128;
    let reserve_joule = 100i128;
    let mut t = setup_test(reserve_joule, reserve_quote, oracle_price, quote_price);
    let result = t.try_rebalance();
    assert_eq!(result, Err(RebalancerError::PoolEmpty));
}

// ─── Math Correctness ───────────────────────────────────────────

/// Mint targets band midpoint, not exact peg
#[test]
fn test_mint_targets_band_midpoint() {
    let oracle_price: i128 = 10_000;
    let quote_price: i128 = 10_000_000;
    let reserve_quote = 1_000_0000000i128;
    // 20% overpriced: pool_price = 12000
    let reserve_joule = joule_reserves_for_price(reserve_quote, quote_price, 12_000);
    let mut t = setup_test(reserve_joule, reserve_quote, oracle_price, quote_price);
    let pool_joule_before = t.joule.balance(t.pool_id);
    t.rebalance();
    let pool_joule_after = t.joule.balance(t.pool_id);
    let added = pool_joule_after - pool_joule_before;

    // Exact peg mint
    let exact_peg_target = reserve_quote * quote_price / oracle_price;
    let exact_peg_mint = exact_peg_target - reserve_joule;

    // Band midpoint target
    let midpoint_target = reserve_quote * quote_price * 10_000 / (oracle_price * 10_250);
    let midpoint_mint = midpoint_target - reserve_joule;

    assert!(added < exact_peg_mint, "Should add less JOULE than exact peg targeting");
    let diff_from_midpoint =
        if added > midpoint_mint { added - midpoint_mint } else { midpoint_mint - added };
    let diff_from_peg = exact_peg_mint - added;
    assert!(diff_from_midpoint < diff_from_peg, "Should be closer to midpoint than peg");
}

/// Buyback burns all received JOULE
#[test]
fn test_buyback_burns_joule() {
    let oracle_price: i128 = 10_000;
    let quote_price: i128 = 10_000_000;
    let reserve_quote = 1_000_0000000i128;
    // 10% underpriced: pool_price = 9000
    let reserve_joule = joule_reserves_for_price(reserve_quote, quote_price, 9_000);
    let mut t = setup_test(reserve_joule, reserve_quote, oracle_price, quote_price);
    t.quote.mint(t.rebalancer_id, 500_0000000i128);
    let burned_before = t.joule_total_burned();
    t.rebalance();
    let burned_after = t.joule_total_burned();
    assert!(burned_after > burned_before, "JOULE should have been burned");
    let rebalancer_joule = t.joule.balance(t.rebalancer_id);
    assert_eq!(rebalancer_joule, 0, "Rebalancer should have zero JOULE after buyback");
}

/// isqrt comprehensive edge cases
#[test]
fn test_isqrt_comprehensive() {
    assert_eq!(isqrt(0), 0);
    assert_eq!(isqrt(1), 1);
    assert_eq!(isqrt(2), 1);
    assert_eq!(isqrt(3), 1);
    assert_eq!(isqrt(4), 2);
    assert_eq!(isqrt(8), 2);
    assert_eq!(isqrt(9), 3);
    assert_eq!(isqrt(15), 3);
    assert_eq!(isqrt(16), 4);
    assert_eq!(isqrt(10_000_000_000_000_000), 100_000_000);
    assert_eq!(isqrt(100_000_000i128 * 100_000_000), 100_000_000);
}

// ─── Auth Tests ─────────────────────────────────────────────────

/// Rebalance requires oracle auth
#[test]
#[should_panic]
fn test_rebalance_requires_oracle() {
    let p = parties();
    let mut client = initialized(&p);
    let stranger = Context::new(Address::new(9, 9), 0);
    client.rebalance(&stranger, &Observations::new(), &mut Vec::new()).unwrap();
}

/// set_params requires owner auth
#[test]
#[should_panic]
fn test_set_params_requires_owner() {
    let p = parties();
    let mut client = initialized(&p);
    let stranger = Context::new(Address::new(9, 9), 0);
    client
        .set_params(
            &stranger,
            300u32,
            300u32,
            50_000_000_000i128,
            25_000_000_000i128,
            12u32,
            10_000_000i128,
            &mut Vec::new(),
        )
        .unwrap();
}

/// withdraw requires owner auth
#[test]
#[should_panic]
fn test_withdraw_requires_owner() {
    let p = parties();
    let client = initialized(&p);
    let stranger = Context::new(Address::new(9, 9), 0);
    let to = Address::new(9, 2);
    client.withdraw(&stranger, p.joule, to, 100i128, &mut Vec::new()).unwrap();
}

/// fund_quote requires caller auth
#[test]
#[should_panic]
fn test_fund_quote_requires_caller_auth() {
    let p = parties();
    let client = initialized(&p);
    let funder = Address::new(9, 1);
    let stranger = Context::new(Address::new(9, 9), 0);
    client.fund_quote(&stranger, funder, 100i128, &mut Vec::new()).unwrap();
}

// ─── Pool Tests ─────────────────────────────────────────────────

/// Mint rebalance earns USDC for rebalancer (self-funding cycle)
#[test]
fn test_mint_rebalance_earns_usdc() {
    let oracle_price: i128 = 10_000;
    let quote_price: i128 = 10_000_000;
    let reserve_quote = 1_000_0000000i128;
    // 10% overpriced
    let reserve_joule = joule_reserves_for_price(reserve_quote, quote_price, 11_000);
    let mut t = setup_test(reserve_joule, reserve_quote, oracle_price, quote_price);
    let usdc_before = t.quote.balance(t.rebalancer_id);
    assert_eq!(usdc_before, 0, "Rebalancer should start with zero USDC");
    t.rebalance();
    let usdc_after = t.quote.balance(t.rebalancer_id);
    assert!(usdc_after > 0, "Rebalancer should have earned USDC from selling minted JOULE");
}

/// Self-funding cycle: mint earns USDC, then buyback spends it
#[test]
fn test_self_funding_cycle() {
    let oracle_price: i128 = 10_000;
    let quote_price: i128 = 10_000_000;
    let reserve_quote = 1_000_0000000i128;
    // 15% overpriced → mint rebalance
    let reserve_joule = joule_reserves_for_price(reserve_quote, quote_price, 11_500);
    let mut t = setup_test(reserve_joule, reserve_quote, oracle_price, quote_price);

    // Phase 1: Mint rebalance → earns USDC
    t.rebalance();
    let usdc_earned = t.quote.balance(t.rebalancer_id);
    assert!(usdc_earned > 0, "Should have earned USDC from mint rebalance");

    // Now manipulate pool to be underpriced:
    // Add a modest amount of JOULE to push price below lower band
    let extra_joule = reserve_joule / 5; // 20% more JOULE → ~8% underpriced
    t.joule.mint(t.pool_id, extra_joule);

    // Cap max_quote_spend to a small amount within what we earned
    let small_spend = usdc_earned / 2;
    t.set_params(500u32, 500u32, 100_000_000_000i128, small_spend, 12u32, 10_000_000i128);

    // Advance past cooldown
    set_ledger(&mut t, 115);
    t.joule_set_price(oracle_price, 2u64);

    // Phase 2: Buyback rebalance — should use the earned USDC
    let usdc_before = t.quote.balance(t.rebalancer_id);
    let result = t.try_rebalance();
    // It should either succeed or return NoRebalanceNeeded — NOT InsufficientQuote
    assert!(
        result != Err(RebalancerError::InsufficientQuote),
        "Should not fail with InsufficientQuote — has USDC from mint phase"
    );
    if result.is_ok() {
        let usdc_after = t.quote.balance(t.rebalancer_id);
        assert!(usdc_after < usdc_before, "Should have spent USDC from mint earnings");
    }
}

/// Swap integration — verify full flow through the pool
#[test]
fn test_pool_swap_integration() {
    let oracle_price: i128 = 10_000;
    let quote_price: i128 = 10_000_000;
    let reserve_quote = 1_000_0000000i128;
    // 10% overpriced
    let reserve_joule = joule_reserves_for_price(reserve_quote, quote_price, 11_000);
    let mut t = setup_test(reserve_joule, reserve_quote, oracle_price, quote_price);

    let pool_joule_before = t.joule.balance(t.pool_id);
    let pool_quote_before = t.quote.balance(t.pool_id);

    t.rebalance();

    let pool_joule_after = t.joule.balance(t.pool_id);
    let pool_quote_after = t.quote.balance(t.pool_id);

    // After mint rebalance: pool has more JOULE, less USDC
    assert!(pool_joule_after > pool_joule_before, "Pool should have more JOULE");
    assert!(pool_quote_after < pool_quote_before, "Pool should have less USDC");
}

// ─── Many pools ─────────────────────────────────────────────────

#[test]
fn rebalances_of_many_pools_keep_their_bounds() {
    let oracle_price: i128 = 10_000;
    let quote_price: i128 = 10_000_000;
    let reserve_quote = 1_000_0000000i128;
    let max_mint = 100_000_000_000i128;
    let max_quote_spend = 50_000_000_000i128;
    let funds = 500_0000000i128;
    let (mut mints, mut buybacks, mut rests) = (0, 0, 0);

    // Pool prices from 50% to 150% of the oracle's, in steps of a quarter percent.
    for pool_price in (5_000..=15_000).step_by(25) {
        let reserve_joule = joule_reserves_for_price(reserve_quote, quote_price, pool_price);
        let mut t = setup_test(reserve_joule, reserve_quote, oracle_price, quote_price);
        t.quote.mint(t.rebalancer_id, funds);
        let logged = t.log.len();

        let lhs = reserve_quote * quote_price * 10_000;
        let above = lhs > oracle_price * reserve_joule * 10_500;
        let below = lhs < oracle_price * reserve_joule * 9_500;

        match t.try_rebalance() {
            Ok(()) => {
                assert!(above || below, "a pool at {pool_price} is within the band");
                let pool_gain = t.joule.balance(t.pool_id) - reserve_joule;
                let spent = funds - t.quote.balance(t.rebalancer_id);
                if above {
                    mints += 1;
                    assert!(0 < pool_gain && pool_gain <= max_mint);
                    assert!(spent < 0, "a mint earns quote");
                    assert_eq!(t.joule_token.total_minted(), pool_gain);
                    assert_eq!(t.joule_total_burned(), 0);
                } else {
                    buybacks += 1;
                    assert!(0 < spent && spent <= max_quote_spend);
                    assert!(pool_gain < 0, "a buyback takes base tokens out of the pool");
                    assert_eq!(t.joule_total_burned(), -pool_gain);
                }
                assert_eq!(t.joule.balance(t.rebalancer_id), 0);
                assert_eq!(t.rebalancer.last_rebalance_ledger, 100);
                assert!(t.log.len() > logged);
                assert_eq!(t.try_rebalance(), Err(RebalancerError::CooldownActive));
            }
            Err(RebalancerError::NoRebalanceNeeded) => {
                rests += 1;
                assert!(!above && !below, "a pool at {pool_price} is outside the band");
                assert_eq!(t.rebalancer.last_rebalance_ledger, 0);
                assert_eq!(t.joule.balance(t.pool_id), reserve_joule);
                assert_eq!(t.quote.balance(t.rebalancer_id), funds);
                assert_eq!(t.log.len(), logged);
            }
            Err(e) => panic!("a pool at {pool_price}: {e:?}"),
        }
    }
    assert!(mints > 100 && buybacks > 100 && rests > 30);
}
