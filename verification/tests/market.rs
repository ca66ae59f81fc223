use gmsol::clock::{ClockKind, Clocks};
use gmsol::core_error::CoreError;
use gmsol::error::Error;
use gmsol::market::{Address, Market, MarketFlag, MarketMeta, MarketState};
use gmsol::pool::{Pool, PoolKind, Pools};
use gmsol::revertible::{market_burn_amount, market_mint_amount, AsLiquidityMarket, RevertiblePerpMarket};
use gmsol::ser::{market_clocks, market_pools, SerializeMarketState};

fn addr(n: u128) -> Address {
    Address { hi: 0, lo: n }
}

fn empty_state() -> MarketState {
    MarketState {
        long_token_balance: 0,
        short_token_balance: 0,
        funding_factor_per_second: 0,
        trade_count: 0,
        deposit_count: 0,
        withdrawal_count: 0,
        order_count: 0,
    }
}

fn new_market(long: u128, short: u128) -> Market {
    let mut market = Market {
        flag: 0,
        meta: MarketMeta {
            market_token_mint: addr(0),
            index_token_mint: addr(0),
            long_token_mint: addr(0),
            short_token_mint: addr(0),
        },
        store: addr(0),
        pools: Pools::new(),
        clocks: Clocks { price_impact_distribution: 0, borrowing: 0, funding: 0, adl_for_long: 0, adl_for_short: 0 },
        state: empty_state(),
    };
    market.init(addr(9), addr(1), addr(2), addr(long), addr(short), true, 1_000);
    market
}

fn pool(long: u128, short: u128) -> Pool {
    Pool { is_pure: false, long_token_amount: long, short_token_amount: short }
}

#[test]
fn init_sets_tokens_flags_pools_and_clocks() {
    let market = new_market(3, 4);
    assert_eq!(market.store, addr(9));
    assert!(market.is_enabled());
    assert!(!market.is_pure());
    assert_eq!(market.clock(ClockKind::Borrowing), Some(1_000));
    assert_eq!(market.clock(ClockKind::Funding), Some(1_000));
    assert_eq!(market.clock(ClockKind::PriceImpactDistribution), Some(1_000));
    assert_eq!(market.pool(PoolKind::Primary), Some(pool(0, 0)));
    assert_eq!(market.try_pool(PoolKind::SwapImpact), Ok(pool(0, 0)));
}

#[test]
fn pure_market_has_pure_pools_but_the_borrowing_factor_pool() {
    let market = new_market(3, 3);
    assert!(market.is_pure());
    assert!(market.pool(PoolKind::Primary).unwrap().is_pure);
    assert!(market.pool(PoolKind::OpenInterestForLong).unwrap().is_pure);
    assert!(!market.pool(PoolKind::BorrowingFactor).unwrap().is_pure);
}

#[test]
fn flags_are_independent() {
    let mut market = new_market(3, 4);
    market.set_adl_enabled(true, true);
    assert!(market.is_adl_enabled(true));
    assert!(!market.is_adl_enabled(false));
    assert!(market.is_enabled());
    market.set_enabled(false);
    assert!(!market.is_enabled());
    assert!(market.is_adl_enabled(true));
    assert!(market.flag(MarketFlag::AutoDeleveragingEnabledForLong));
}

#[test]
fn validate_market() {
    let mut market = new_market(3, 4);
    assert_eq!(market.validate(&addr(9)), Ok(()));
    assert_eq!(market.validate(&addr(8)), Err(CoreError::InvalidMarket));
    market.set_enabled(false);
    assert_eq!(market.validate(&addr(9)), Err(CoreError::DisabledMarket));
}

#[test]
fn transfers_in_then_out_restore_balances() {
    let mut market = new_market(3, 4);
    assert_eq!(market.record_transferred_in_by_token(&addr(3), 500), Ok(()));
    assert_eq!(market.record_transferred_in_by_token(&addr(4), 70), Ok(()));
    assert_eq!(market.state().long_token_balance_raw(), 500);
    assert_eq!(market.state().short_token_balance_raw(), 70);
    assert_eq!(market.record_transferred_out_by_token(&addr(3), 500), Ok(()));
    assert_eq!(market.record_transferred_out_by_token(&addr(4), 70), Ok(()));
    assert_eq!(market.state().long_token_balance_raw(), 0);
    assert_eq!(market.state().short_token_balance_raw(), 0);
    // Out of range, and not a collateral token.
    assert_eq!(market.record_transferred_out(true, 1), Err(CoreError::AmountOverflow));
    assert_eq!(market.record_transferred_in_by_token(&addr(5), 1), Err(CoreError::InvalidCollateralToken));
}

#[test]
fn pure_market_keeps_both_sides_in_the_long_balance() {
    let mut market = new_market(3, 3);
    assert_eq!(market.record_transferred_in(false, 10), Ok(()));
    assert_eq!(market.state().long_token_balance_raw(), 10);
    assert_eq!(market.state().short_token_balance_raw(), 0);
}

#[test]
fn counters() {
    let mut market = new_market(3, 4);
    let mut state = *market.state();
    assert_eq!(state.next_deposit_id(), Ok(1));
    assert_eq!(state.next_deposit_id(), Ok(2));
    assert_eq!(state.deposit_count(), 2);
    state.order_count = u64::MAX;
    assert_eq!(state.next_order_id(), Err(CoreError::AmountOverflow));
    market.state = state;
    assert_eq!(market.state().order_count(), u64::MAX);
}

#[test]
fn meta_tokens() {
    let market = new_market(3, 4);
    let meta = market.meta();
    assert_eq!(meta.pnl_token(true), addr(3));
    assert_eq!(meta.pnl_token(false), addr(4));
    assert_eq!(meta.to_token_side(&addr(4)), Ok(false));
    assert_eq!(meta.opposite_token(&addr(3)), Ok(addr(4)));
    assert_eq!(meta.opposite_token(&addr(7)), Err(CoreError::InvalidArgument));
    assert_eq!(meta.validate_collateral_token(&addr(2)), Err(CoreError::InvalidCollateralToken));
    assert_eq!(meta.ordered_tokens(), vec![addr(2), addr(3), addr(4)]);
}

#[test]
fn staged_perp_market_round_trip() {
    let mut market = new_market(3, 4);
    market.pools.set(PoolKind::OpenInterestForLong, pool(11, 12));
    market.pools.set(PoolKind::Primary, pool(1, 2));
    market.state.funding_factor_per_second = -5;
    let before = market;

    // Committing an unchanged staged market leaves the market as it was.
    let staged = RevertiblePerpMarket::from_market(&market);
    assert_eq!(*staged.open_interest_pool(true), pool(11, 12));
    assert_eq!(staged.funding_factor_per_second(), -5);
    staged.commit(&mut market);
    for kind in [PoolKind::Primary, PoolKind::OpenInterestForLong, PoolKind::BorrowingFactor, PoolKind::TotalBorrowing] {
        assert_eq!(market.pool(kind), before.pool(kind));
    }
    assert_eq!(market.clocks, before.clocks);
    assert_eq!(market.state, before.state);

    // Changes to the staged market reach the market at the commit, and only then.
    let mut staged = RevertiblePerpMarket::from_market(&market);
    *staged.open_interest_pool_mut(false) = pool(7, 8);
    *staged.borrowing_factor_pool_mut() = pool(5, 0);
    staged.set_funding_factor_per_second(42);
    assert_eq!(staged.just_passed_in_seconds_for_borrowing(1_010), 10);
    assert_eq!(market.pool(PoolKind::OpenInterestForShort), Some(pool(0, 0)));
    staged.commit(&mut market);
    assert_eq!(market.pool(PoolKind::OpenInterestForShort), Some(pool(7, 8)));
    assert_eq!(market.pool(PoolKind::BorrowingFactor), Some(pool(5, 0)));
    assert_eq!(market.pool(PoolKind::Primary), Some(pool(1, 2)));
    assert_eq!(market.state.funding_factor_per_second, 42);
    assert_eq!(market.clock(ClockKind::Borrowing), Some(1_010));
    assert_eq!(market.clock(ClockKind::Funding), Some(1_000));
    // Reading the market back gives what was committed.
    let again = RevertiblePerpMarket::from_market(&market);
    assert_eq!(again, staged);
}

#[test]
fn liquidity_market_accounts_mints_and_burns() {
    let mut market = new_market(3, 4);
    market.pools.set(PoolKind::PositionImpact, pool(100, 0));
    let mut liquidity = AsLiquidityMarket::new(&market, 1_000).enable_mint();
    assert_eq!(liquidity.total_supply(), 1_000);
    assert_eq!(liquidity.mint(&200), Ok(()));
    assert_eq!(liquidity.mint(&300), Ok(()));
    assert_eq!(liquidity.to_mint, 500);
    assert_eq!(liquidity.mint(&(u64::MAX as u128)), Err(Error::Overflow));
    assert_eq!(liquidity.mint(&(u128::MAX)), Err(Error::Overflow));
    assert_eq!(liquidity.to_mint, 500);
    assert_eq!(liquidity.burn(&1_000), Ok(()));
    assert_eq!(liquidity.burn(&1), Err(Error::Underflow));
    assert_eq!(liquidity.to_burn, 1_000);
    liquidity.position_impact_pool_mut().long_token_amount = 60;
    assert_eq!(liquidity.just_passed_in_seconds_for_position_impact_distribution(1_030), 30);
    let actions = liquidity.commit(&mut market);
    assert_eq!(actions.mint, Some(500));
    assert_eq!(actions.burn, Some(1_000));
    assert_eq!(market.pool(PoolKind::PositionImpact), Some(pool(60, 0)));
    assert_eq!(market.clock(ClockKind::PriceImpactDistribution), Some(1_030));
    assert_eq!(market.clock(ClockKind::Borrowing), Some(1_000));
}

#[test]
fn liquidity_commit_without_changes_asks_for_nothing() {
    let mut market = new_market(3, 4);
    let liquidity = AsLiquidityMarket::new(&market, 10);
    let actions = liquidity.commit(&mut market);
    assert_eq!(actions.mint, None);
    assert_eq!(actions.burn, None);
}

#[test]
fn direct_mint_and_burn_amounts() {
    assert_eq!(market_mint_amount(true, true, 5), Ok(5));
    assert_eq!(market_mint_amount(false, true, 5), Err(Error::InvalidArgument));
    assert_eq!(market_mint_amount(true, false, 5), Err(Error::MintReceiverNotSet));
    assert_eq!(market_mint_amount(true, true, u128::MAX), Err(Error::Overflow));
    assert_eq!(market_burn_amount(true, true, 7), Ok(7));
    assert_eq!(market_burn_amount(false, true, 7), Err(Error::InvalidArgument));
    assert_eq!(market_burn_amount(true, false, 7), Err(Error::WithdrawalVaultNotSet));
    assert_eq!(market_burn_amount(true, true, u128::MAX), Err(Error::Overflow));
}

#[test]
fn serializable_views() {
    let mut market = new_market(3, 4);
    market.pools.set(PoolKind::ClaimableFee, pool(9, 10));
    let pools = market_pools(&market);
    assert_eq!(pools.len(), 16);
    assert_eq!(pools[0], (PoolKind::Primary, pool(0, 0)));
    assert_eq!(pools[2], (PoolKind::ClaimableFee, pool(9, 10)));
    assert_eq!(pools[15].0, PoolKind::TotalBorrowing);
    let clocks = market_clocks(&market);
    assert_eq!(clocks.len(), 5);
    assert_eq!(clocks[1], (ClockKind::Borrowing, 1_000));
    assert_eq!(clocks[4], (ClockKind::AdlForShort, 0));
    let state = SerializeMarketState::from_state(market.state());
    assert_eq!(state.order_count, 0);
}
