use gmsol::action::ActionState;
use gmsol::clock::{just_passed_in_seconds, saturating_sub_i64, ClockKind, Clocks};
use gmsol::constants::{
    get_msg_by_side, max_pnl_factor, max_pool_amount, swap_fee_params, validate_gt_factor, validate_transfer_amount,
    PnlFactorKind, MARKET_USD_UNIT,
};
use gmsol::core_error::CoreError;
use gmsol::delta::{PoolDelta, PoolValue};
use gmsol::deposit::{execute_deposit, ExecuteDepositError, TokenParams};
use gmsol::market::{Address, MarketMeta};
use gmsol::price::{Price, Prices};
use gmsol::price_map::{DepositPriceError, PriceMap};
use gmsol::distribute::PositionImpactMarket;
use gmsol::error::Error;
use gmsol::params::{FeeParams, PositionImpactDistributionParams, PriceImpactParams};
use gmsol::pool::{Pool, PoolKind};
use gmsol::token_config::TokenConfig;
use gmsol::trade::{PositionState, TradeData, TradeFlag};

fn pool(long: u128, short: u128) -> Pool {
    Pool { is_pure: false, long_token_amount: long, short_token_amount: short }
}

#[test]
fn fees_split_between_pool_and_receiver() {
    let params = FeeParams::builder()
        .with_fee_receiver_factor(37)
        .with_positive_impact_fee_factor(5)
        .with_negative_impact_fee_factor(7)
        .build();
    // 2 decimals: a 7% fee of 1000 is 70, of which 37% (25) goes to the receiver.
    assert_eq!(params.fee::<2>(false, &1_000), Some(70));
    assert_eq!(params.receiver_fee::<2>(&70), Some(25));
    let (after, fees) = params.apply_fees::<2>(false, &1_000).unwrap();
    assert_eq!(*fees.fee_receiver_amount(), 25);
    assert_eq!(*fees.fee_amount_for_pool(), 45);
    assert_eq!(after + fees.fee_amount_for_pool() + fees.fee_receiver_amount(), 1_000);
    let position = params.position_fees::<2>(&10, &10_000, true).unwrap();
    // 5% of 10000 usd is 500 usd, 50 tokens at price 10; 18 go to the receiver.
    assert_eq!(position.base().fee_amount_for_pool + position.base().fee_receiver_amount, 50);
    assert_eq!(position.base().fee_receiver_amount, 18);
    assert_eq!(params.position_fees::<2>(&0, &10_000, true).err(), Some(Error::InvalidPrices));
    assert_eq!(position.total_cost_amount(), Ok(50));
}

#[test]
fn pool_deltas() {
    let mut p = pool(100, 50);
    assert_eq!(p.apply_delta_to_long_amount(&-30), Ok(()));
    assert_eq!(p.long_amount(), 70);
    assert_eq!(p.apply_delta_to_short_amount(&-51), Err(Error::Computation));
    assert_eq!(p.short_amount(), 50);
    assert_eq!(p.apply_delta_amount(false, &5), Ok(()));
    assert_eq!(p.short_amount(), 55);
    // A pure pool keeps both sides in the long amount; each side reads half of it.
    let mut pure = Pool { is_pure: true, long_token_amount: 100, short_token_amount: 0 };
    assert_eq!(pure.apply_delta_to_short_amount(&20), Ok(()));
    assert_eq!(pure.long_token_amount, 120);
    assert_eq!(pure.long_amount(), 60);
    assert_eq!(pure.short_amount(), 60);
    assert_eq!(PoolKind::try_from_u8(8), Some(PoolKind::BorrowingFactor));
    assert_eq!(PoolKind::BorrowingFactor.to_u8(), 8);
    assert_eq!(PoolKind::try_from_u8(16), None);
}

#[test]
fn pool_values_and_impact() {
    let value = PoolValue::<u128>::try_new(&pool(10, 30), &3, &1).unwrap();
    assert_eq!(*value.long_value(), 30);
    assert_eq!(*value.short_value(), 30);
    assert_eq!(value.diff_value(), 0);
    let delta = PoolDelta::try_new(&pool(20_000, 30_000), &5_000, &0, &3, &1).unwrap();
    assert_eq!(delta.initial_diff_value(), 30_000);
    assert_eq!(delta.next_diff_value(), 45_000);
    assert!(delta.is_same_side_rebalance());
    // From balance, any change crosses over.
    let crossing = PoolDelta::try_new(&pool(10, 30), &5, &0, &3, &1).unwrap();
    assert!(!crossing.is_same_side_rebalance());
    // Moving away from balance gives a negative impact.
    let params = PriceImpactParams { exponent: 200, positive_factor: 1, negative_factor: 2 };
    // 0.02 * (300^2 - 450^2), with 2 decimals.
    let impact = delta.swap_impact::<2>(&params).unwrap();
    assert_eq!(impact, -225_000);
    // The same impact from the factored imbalances: A(i, nf) - A(n, nf).
    let a_i = gmsol::utils::apply_factors::<2>(30_000, 2, 200).unwrap() as i128;
    let a_n = gmsol::utils::apply_factors::<2>(45_000, 2, 200).unwrap() as i128;
    assert_eq!(impact, a_i - a_n);
    // Shrinking the imbalance gives a positive impact: A(i, pf) - A(n, pf).
    let shrinking = PoolDelta::try_new(&pool(20_000, 30_000), &0, &5_000, &3, &1).unwrap();
    assert!(shrinking.is_same_side_rebalance());
    let params = PriceImpactParams { exponent: 200, positive_factor: 1, negative_factor: 2 };
    let a_i = gmsol::utils::apply_factors::<2>(30_000, 1, 200).unwrap() as i128;
    let a_n = gmsol::utils::apply_factors::<2>(25_000, 1, 200).unwrap() as i128;
    assert_eq!(shrinking.next_diff_value(), 25_000);
    assert_eq!(shrinking.swap_impact::<2>(&params), Some(a_i - a_n));
    assert!(a_i - a_n > 0);
    // A positive factor above the negative one is capped by it.
    let params = PriceImpactParams { exponent: 200, positive_factor: 9, negative_factor: 2 };
    assert_eq!(params.adjusted_factors(), (2, 2));
}

#[test]
fn position_impact_distribution() {
    let mut market = PositionImpactMarket {
        position_impact_pool: pool(1_000, 0),
        position_impact_distribution_clock: 100,
        params: PositionImpactDistributionParams { distribute_factor: 300, min_position_impact_pool_amount: 900 },
    };
    // 2 decimals: 3 per second; 10 seconds give 30.
    let report = market.distribute_position_impact::<2>(110).unwrap();
    assert_eq!(report.duration_in_seconds(), 10);
    assert_eq!(*report.distribution_amount(), 30);
    assert_eq!(*report.next_position_impact_pool_amount(), 970);
    assert_eq!(market.position_impact_pool.long_amount(), 970);
    assert_eq!(market.position_impact_distribution_clock, 110);
    // The pool never goes below its min amount.
    let report = market.distribute_position_impact::<2>(1_110).unwrap();
    assert_eq!(*report.distribution_amount(), 70);
    assert_eq!(market.position_impact_pool.long_amount(), 900);
    // No time passed: nothing to distribute.
    let report = market.distribute_position_impact::<2>(1_110).unwrap();
    assert_eq!(report.duration_in_seconds(), 0);
    assert_eq!(*report.distribution_amount(), 0);
}

#[test]
fn clocks() {
    let mut last = 100;
    // A clock ahead of the current time stays, and the negative duration is cast to `u64`.
    assert_eq!(just_passed_in_seconds(&mut last, 90), (-10i64) as u64);
    assert_eq!(last, 100);
    assert_eq!(just_passed_in_seconds(&mut last, 100), 0);
    assert_eq!(just_passed_in_seconds(&mut last, 130), 30);
    assert_eq!(last, 130);
    assert_eq!(saturating_sub_i64(i64::MIN, 1), i64::MIN);
    let mut clocks = Clocks { price_impact_distribution: 0, borrowing: 0, funding: 0, adl_for_long: 5, adl_for_short: 6 };
    clocks.init_to_current(50);
    assert_eq!(clocks.get(ClockKind::Funding), Some(50));
    assert_eq!(clocks.get(ClockKind::AdlForShort), Some(6));
    assert_eq!(clocks.just_passed_in_seconds(ClockKind::Borrowing, 80), 30);
    assert_eq!(clocks.get(ClockKind::Borrowing), Some(80));
    assert_eq!(clocks.get(ClockKind::Funding), Some(50));
}

#[test]
fn action_lifecycle() {
    let pending = ActionState::try_from_u8(0).unwrap();
    assert_eq!(pending, ActionState::Pending);
    let done = pending.completed().unwrap();
    assert_eq!(done, ActionState::Completed);
    assert_eq!(done.completed(), Err(CoreError::PreconditionsAreNotMet));
    assert_eq!(done.as_str(), "completed");
    assert_eq!(done.to_u8(), 1);
    assert_eq!(ActionState::try_from_u8(7), Err(CoreError::InvalidArgument));
}

fn state(trade_id: u64, size_in_usd: u128, size_in_tokens: u128) -> PositionState {
    PositionState {
        trade_id,
        increased_at: 0,
        decreased_at: 0,
        size_in_tokens,
        collateral_amount: 0,
        size_in_usd,
        borrowing_factor: 0,
        funding_fee_amount_per_size: 0,
        long_token_claimable_funding_amount_per_size: 0,
        short_token_claimable_funding_amount_per_size: 0,
    }
}

#[test]
fn trades() {
    let mut trade = TradeData { flags: 0, trade_id: 0, ts: 0, slot: 0, before: state(1, 100, 10), after: state(1, 100, 10) };
    trade.set_flags(true, false, true);
    assert!(trade.is_long());
    assert!(!trade.is_collateral_long());
    assert!(trade.is_increase());
    assert!(trade.get_flag(TradeFlag::IsLong));
    assert_eq!(trade.update_with_state(&state(2, 150, 15)), Ok(()));
    assert_eq!(trade.delta_size_in_usd(), 50);
    assert_eq!(trade.delta_size_in_tokens(), 5);
    assert_eq!(trade.update_with_state(&state(3, 90, 15)), Err(CoreError::InvalidTradeDeltaSize));
    assert_eq!(trade.update_with_state(&state(1, 200, 20)), Err(CoreError::InvalidTradeID));
}

#[test]
fn defaults_and_checks() {
    assert_eq!(MARKET_USD_UNIT, 10u128.pow(20));
    assert_eq!(swap_fee_params().fee_receiver_factor, 37_000_000_000_000_000_000);
    assert_eq!(max_pnl_factor(PnlFactorKind::Deposit, true), Ok(60_000_000_000_000_000_000));
    assert!(max_pnl_factor(PnlFactorKind::Trader, true).is_err());
    assert_eq!(max_pool_amount(true), 1_000_000_000 * MARKET_USD_UNIT);
    assert_eq!(validate_gt_factor(MARKET_USD_UNIT), Ok(()));
    assert_eq!(validate_gt_factor(MARKET_USD_UNIT + 1), Err(CoreError::InvalidArgument));
    assert_eq!(validate_transfer_amount(0), Err(CoreError::ZeroAmount));
    assert_eq!(validate_transfer_amount(1), Ok(()));
    assert_eq!(get_msg_by_side(true), "for long");
}

#[test]
fn token_config_update() {
    let mut config = TokenConfig { bump: 0, price_feed: gmsol::market::Address::zero(), heartbeat_duration: 0, token_decimals: 0, precision: 0 };
    let feed = gmsol::market::Address { hi: 1, lo: 2 };
    config.init(1, feed, 60, 9, 4);
    config.update(None, Some(6), None);
    assert_eq!(config, TokenConfig { bump: 1, price_feed: feed, heartbeat_duration: 60, token_decimals: 6, precision: 4 });
}

#[test]
fn delta_then_its_opposite_restores_the_pool() {
    let original = pool(500, 700);
    let mut p = original;
    assert_eq!(p.apply_delta_amount(true, &123), Ok(()));
    assert_eq!(p.apply_delta_amount(true, &-123), Ok(()));
    assert_eq!(p, original);
    assert_eq!(p.apply_delta_amount(false, &-700), Ok(()));
    assert_eq!(p.long_amount(), 500);
    assert_eq!(p.short_amount(), 0);
}

#[test]
fn default_fees_are_zero() {
    let fees = gmsol::params::Fees::default();
    assert_eq!(*fees.fee_receiver_amount(), 0);
    assert_eq!(*fees.fee_amount_for_pool(), 0);
    let position = gmsol::params::PositionFees::default();
    assert_eq!(position.total_cost_amount(), Ok(0));
}

#[test]
fn execute_deposit_distributes_first_and_clears_amounts() {
    let addr = |n: u128| Address { hi: 0, lo: n };
    let meta = MarketMeta { market_token_mint: addr(0), index_token_mint: addr(1), long_token_mint: addr(2), short_token_mint: addr(3) };
    let mut market = PositionImpactMarket {
        position_impact_pool: pool(1_000, 0),
        position_impact_distribution_clock: 100,
        params: PositionImpactDistributionParams { distribute_factor: 300, min_position_impact_pool_amount: 900 },
    };
    let mut params = TokenParams { initial_long_token_amount: 5, initial_short_token_amount: 7 };
    let mut map = PriceMap::new();
    map.set(&addr(1), Price { min: 10, max: 12 }).unwrap();
    map.set(&addr(2), Price { min: 20, max: 21 }).unwrap();
    // A price is missing: nothing changes.
    let before = market;
    assert_eq!(
        execute_deposit::<2>(&mut market, 110, &map, &meta, (4, 6), &mut params).err(),
        Some(ExecuteDepositError::Price(DepositPriceError::InvalidArgument))
    );
    assert_eq!(market.position_impact_pool, before.position_impact_pool);
    assert_eq!(market.position_impact_distribution_clock, 100);
    assert_eq!(params, TokenParams { initial_long_token_amount: 5, initial_short_token_amount: 7 });
    // With every price: distributed first, priced at the max prices, amounts cleared.
    map.set(&addr(3), Price { min: 1, max: 1 }).unwrap();
    let execution = execute_deposit::<2>(&mut market, 110, &map, &meta, (4, 6), &mut params).unwrap();
    assert_eq!(*execution.distribution.distribution_amount(), 30);
    assert_eq!(market.position_impact_pool.long_amount(), 970);
    assert_eq!(execution.prices, Prices { index_token_price: 12, long_token_price: 21, short_token_price: 1 });
    assert_eq!((execution.long_amount, execution.short_amount), (4, 6));
    assert_eq!(params, TokenParams { initial_long_token_amount: 0, initial_short_token_amount: 0 });
}
