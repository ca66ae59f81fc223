use gmsol::error::Error;
use gmsol::params::{FeeParams, PriceImpactParams};
use gmsol::pool::Pool;
use gmsol::price::Prices;
use gmsol::swap::SwapMarket;

fn pool(long: u128, short: u128) -> Pool {
    Pool { is_pure: false, long_token_amount: long, short_token_amount: short }
}

/// A market with 9 decimals whose liquidity pool holds what two deposits of long tokens and one
/// of short tokens leave in it.
fn market() -> SwapMarket {
    SwapMarket {
        liquidity_pool: pool(2_000_000_000, 1_000_000_000),
        swap_impact_pool: pool(10_000_000, 10_000_000),
        claimable_fee_pool: pool(0, 0),
        swap_impact_params: PriceImpactParams {
            exponent: 2_000_000_000,
            positive_factor: 4,
            negative_factor: 8,
        },
        swap_fee_params: FeeParams::builder()
            .with_fee_receiver_factor(370_000_000)
            .with_positive_impact_fee_factor(500_000)
            .with_negative_impact_fee_factor(700_000)
            .build(),
        max_pool_amount_for_long_token: 1_000_000_000_000_000_000,
        max_pool_amount_for_short_token: 1_000_000_000_000_000_000,
    }
}

#[test]
fn basic() {
    let mut market = market();
    let prices = Prices { index_token_price: 123, long_token_price: 123, short_token_price: 1 };

    // Test for positive impact.
    let before_market = market;
    let token_in_amount = 100_000_000;
    let report = market.swap(false, token_in_amount, prices).unwrap().execute::<9>(&mut market).unwrap();
    assert!(report.price_impact_value > 0);

    assert_eq!(
        before_market.liquidity_pool.long_amount(),
        market.liquidity_pool.long_amount() + report.token_out_amount - report.price_impact_amount,
    );
    assert_eq!(
        before_market.liquidity_pool.short_amount() + token_in_amount - report.token_in_fees.fee_receiver_amount(),
        market.liquidity_pool.short_amount(),
    );
    assert_eq!(
        before_market.swap_impact_pool.long_amount(),
        market.swap_impact_pool.long_amount() + report.price_impact_amount,
    );
    assert_eq!(before_market.swap_impact_pool.short_amount(), market.swap_impact_pool.short_amount());
    assert_eq!(before_market.claimable_fee_pool.long_amount(), market.claimable_fee_pool.long_amount());
    assert_eq!(
        before_market.claimable_fee_pool.short_amount() + report.token_in_fees.fee_receiver_amount(),
        market.claimable_fee_pool.short_amount(),
    );

    // Test for negative impact.
    let before_market = market;
    let token_in_amount = 100_000;
    let prices = Prices { index_token_price: 119, long_token_price: 119, short_token_price: 1 };
    let report = market.swap(true, token_in_amount, prices).unwrap().execute::<9>(&mut market).unwrap();
    assert!(report.price_impact_value < 0);

    assert_eq!(
        before_market.liquidity_pool.long_amount() + token_in_amount
            - report.price_impact_amount
            - report.token_in_fees.fee_receiver_amount(),
        market.liquidity_pool.long_amount(),
    );
    assert_eq!(
        before_market.liquidity_pool.short_amount() - report.token_out_amount,
        market.liquidity_pool.short_amount(),
    );
    assert_eq!(
        before_market.swap_impact_pool.long_amount() + report.price_impact_amount,
        market.swap_impact_pool.long_amount(),
    );
    assert_eq!(before_market.swap_impact_pool.short_amount(), market.swap_impact_pool.short_amount());
    assert_eq!(
        before_market.claimable_fee_pool.long_amount() + report.token_in_fees.fee_receiver_amount(),
        market.claimable_fee_pool.long_amount(),
    );
    assert_eq!(before_market.claimable_fee_pool.short_amount(), market.claimable_fee_pool.short_amount());
}

#[test]
fn zero_amount_swap() {
    let market = SwapMarket { liquidity_pool: pool(1_000_000_000, 1_000_000_000), ..market() };
    let prices = Prices { index_token_price: 120, long_token_price: 120, short_token_price: 1 };
    let result = market.swap(true, 0, prices);
    assert!(result.is_err());
    assert_eq!(result.err(), Some(Error::EmptySwap));
}

#[test]
fn over_amount_swap() {
    let mut market = SwapMarket { liquidity_pool: pool(1_000_000_000, 1_000_000_000), ..market() };
    let before = market;
    let prices = Prices { index_token_price: 120, long_token_price: 120, short_token_price: 1 };
    let result = market.swap(true, 2_000_000_000, prices).unwrap().execute::<9>(&mut market);
    assert!(result.is_err());
    // The market is left as it was.
    assert_eq!(market.liquidity_pool, before.liquidity_pool);
    assert_eq!(market.swap_impact_pool, before.swap_impact_pool);
    assert_eq!(market.claimable_fee_pool, before.claimable_fee_pool);
}

#[test]
fn small_amount_swap() {
    // The liquidity pool as a deposit of long tokens alone leaves it.
    let mut market = SwapMarket { liquidity_pool: pool(1_000_000_000, 0), ..market() };
    let prices = Prices { index_token_price: 120, long_token_price: 120, short_token_price: 1 };
    let small_amount = 1;
    let report = market.swap(false, small_amount, prices).unwrap().execute::<9>(&mut market).unwrap();
    assert_eq!(market.liquidity_pool.short_amount(), 0);
    // Nothing is paid out, and the unit goes to the fee receiver.
    assert_eq!(report.token_out_amount, 0);
    assert_eq!(report.token_in_fees.fee_receiver_amount(), &1);
    assert_eq!(market.claimable_fee_pool.short_amount(), 1);
    assert_eq!(market.liquidity_pool.long_amount(), 1_000_000_000);
}

#[test]
fn swap_with_invalid_prices_is_refused() {
    let market = market();
    let prices = Prices { index_token_price: 0, long_token_price: 120, short_token_price: 1 };
    assert_eq!(market.swap(true, 1_000, prices).err(), Some(Error::InvalidPrices));
}

#[test]
fn swap_conserves_tokens() {
    // Every token that goes in ends up in the liquidity, impact or claimable fee pool, and every
    // token out leaves the liquidity pool or the impact pool.
    let mut market = market();
    let before = market;
    let prices = Prices { index_token_price: 123, long_token_price: 123, short_token_price: 1 };
    let report = market.swap(true, 5_000_000, prices).unwrap().execute::<9>(&mut market).unwrap();
    let long_before = before.liquidity_pool.long_amount()
        + before.swap_impact_pool.long_amount()
        + before.claimable_fee_pool.long_amount();
    let long_after = market.liquidity_pool.long_amount()
        + market.swap_impact_pool.long_amount()
        + market.claimable_fee_pool.long_amount();
    assert_eq!(long_before + 5_000_000, long_after);
    let short_before = before.liquidity_pool.short_amount()
        + before.swap_impact_pool.short_amount()
        + before.claimable_fee_pool.short_amount();
    let short_after = market.liquidity_pool.short_amount()
        + market.swap_impact_pool.short_amount()
        + market.claimable_fee_pool.short_amount();
    assert_eq!(short_before, short_after + report.token_out_amount);
}
