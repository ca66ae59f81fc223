use gmsol::core_error::CoreError;
use gmsol::feeds::{parse_feeds, FeedError, Feeds, FeedsParser, PriceProviderKind};
use gmsol::market::{Address, MarketMeta};
use gmsol::oracle::{
    check_chainlink_round, checked_pow10_u64, pyth_price_value_to_decimal, pyth_price_with_confidence,
    pyth_price_with_confidence_to_price,
    validate_max_oracle_ts, validate_min_oracle_slot, validate_min_oracle_ts, PriceValidator,
};
use gmsol::price::{Price, Prices};
use gmsol::treasury::AccountMeta;
use gmsol::price_map::{deposit_prices, DepositPriceError, Oracle, OracleError, PriceMap, PriceMapError, MAX_TOKENS};

fn addr(n: u128) -> Address {
    Address { hi: 0, lo: n }
}

#[test]
fn price_map_set_then_get() {
    let mut map = PriceMap::new();
    assert!(map.is_empty());
    assert_eq!(map.set(&addr(5), Price::exact(50)), Ok(()));
    assert_eq!(map.set(&addr(2), Price { min: 19, max: 21 }), Ok(()));
    assert_eq!(map.set(&addr(9), Price::exact(90)), Ok(()));
    assert_eq!(map.len(), 3);
    assert!(!map.is_empty());
    assert_eq!(map.get(&addr(2)), Some(Price { min: 19, max: 21 }));
    assert_eq!(map.get(&addr(5)), Some(Price::exact(50)));
    assert_eq!(map.get(&addr(9)), Some(Price::exact(90)));
    assert_eq!(map.get(&addr(7)), None);
    // A price is set once.
    assert_eq!(map.set(&addr(5), Price::exact(51)), Err(PriceMapError::PriceAlreadySet));
    assert_eq!(map.get(&addr(5)), Some(Price::exact(50)));
    map.clear();
    assert!(map.is_empty());
    assert_eq!(map.get(&addr(5)), None);
}

#[test]
fn oracle_sets_prices_in_order() {
    let mut oracle = Oracle { bump: 0, index: 0, primary: PriceMap::new() };
    oracle.init(3, 1);
    assert_eq!(oracle.bump, 3);
    assert_eq!(oracle.index, 1);
    let tokens = vec![addr(1), addr(2)];
    let prices = vec![Ok(Price::exact(10)), Ok(Price::exact(20))];
    let enabled = vec![Some(true), Some(true)];
    assert_eq!(oracle.set_prices(&tokens, 2, &enabled, &prices), Ok(()));
    assert_eq!(oracle.primary.get(&addr(2)), Some(Price::exact(20)));
    // Prices cannot be set twice.
    assert_eq!(oracle.set_prices(&tokens, 2, &enabled, &prices), Err(OracleError::PricesAlreadySet));
    oracle.clear_all_prices();
    assert!(oracle.primary.is_empty());
    // Not enough accounts.
    assert_eq!(oracle.set_prices(&tokens, 1, &enabled, &prices), Err(OracleError::AccountNotEnoughKeys));
    // Too many tokens.
    let many: Vec<Address> = (0..(MAX_TOKENS as u128 + 1)).map(addr).collect();
    let many_prices: Vec<Result<Price, OracleError>> = many.iter().map(|_| Ok(Price::exact(1))).collect();
    let many_enabled: Vec<Option<bool>> = many.iter().map(|_| Some(true)).collect();
    assert_eq!(oracle.set_prices(&many, 100, &many_enabled, &many_prices), Err(OracleError::ExceedMaxLengthLimit));
    // A repeated token.
    let repeated = vec![addr(1), addr(1)];
    assert_eq!(oracle.set_prices(&repeated, 2, &enabled, &prices), Err(OracleError::PriceAlreadySet));
    oracle.clear_all_prices();
    // The first failing read.
    let failing = vec![Ok(Price::exact(1)), Err(OracleError::InvalidPriceFeed)];
    assert_eq!(oracle.set_prices(&tokens, 2, &enabled, &failing), Err(OracleError::InvalidPriceFeed));
    oracle.clear_all_prices();
    // A token missing from the token map, and one whose config is disabled.
    assert_eq!(
        oracle.set_prices(&tokens, 2, &vec![Some(true), None], &prices),
        Err(OracleError::RequiredResourceNotFound)
    );
    assert_eq!(oracle.primary.get(&addr(1)), Some(Price::exact(10)));
    oracle.clear_all_prices();
    assert_eq!(
        oracle.set_prices(&tokens, 2, &vec![Some(false), Some(true)], &prices),
        Err(OracleError::TokenConfigDisabled)
    );
    assert!(oracle.primary.is_empty());
}

#[test]
fn deposit_uses_max_prices() {
    let meta = MarketMeta { market_token_mint: addr(0), index_token_mint: addr(1), long_token_mint: addr(2), short_token_mint: addr(3) };
    let mut map = PriceMap::new();
    map.set(&addr(1), Price { min: 10, max: 11 }).unwrap();
    map.set(&addr(2), Price { min: 20, max: 22 }).unwrap();
    assert_eq!(deposit_prices(&map, &meta), Err(DepositPriceError::InvalidArgument));
    map.set(&addr(3), Price { min: 1, max: 1 }).unwrap();
    assert_eq!(
        deposit_prices(&map, &meta),
        Ok(Prices { index_token_price: 11, long_token_price: 22, short_token_price: 1 })
    );
}

#[test]
fn validator_collects_the_range() {
    let mut v = PriceValidator::new(1_000, 60, 30, 5);
    assert_eq!(v.validate_one(0, 990, 7), Ok(()));
    assert_eq!(v.validate_one(2, 1_004, 5), Ok(()));
    assert_eq!(v.finish(), Ok(Some((5, 990, 1_002))));
}

#[test]
fn validator_errors() {
    let mut v = PriceValidator::new(1_000, 60, 30, 5);
    assert_eq!(v.validate_one(0, 900, 1), Err(CoreError::MaxPriceAgeExceeded));
    assert_eq!(v.validate_one(0, 1_006, 1), Err(CoreError::MaxPriceTimestampExceeded));
    assert_eq!(v.validate_one(1, i64::MIN, 1), Err(CoreError::TokenAmountOverflow));
    assert_eq!(v.validate_one(0, 960, 1), Ok(()));
    assert_eq!(v.validate_one(0, 1_000, 2), Ok(()));
    assert_eq!(v.finish(), Err(CoreError::MaxOracleTimestampsRangeExceeded));
    let mut w = PriceValidator::new(1_000, 60, 30, 5);
    w.merge_range(None, 20, 10);
    assert_eq!(w.finish(), Err(CoreError::InvalidOracleTimestampsRange));
}

#[test]
fn oracle_time_checks() {
    assert_eq!(validate_min_oracle_ts(Some(10), 9), Err(CoreError::OracleTimestampsAreSmallerThanRequired));
    assert_eq!(validate_min_oracle_ts(Some(10), 10), Ok(()));
    assert_eq!(validate_min_oracle_ts(None, 0), Ok(()));
    assert_eq!(validate_max_oracle_ts(Some(10), 11), Err(CoreError::OracleTimestampsAreLargerThanRequired));
    assert_eq!(validate_max_oracle_ts(Some(10), 10), Ok(()));
    assert_eq!(validate_min_oracle_slot(None, Some(1)), Err(CoreError::OracleNotUpdated));
    assert_eq!(validate_min_oracle_slot(Some(4), Some(5)), Err(CoreError::InvalidOracleSlot));
    assert_eq!(validate_min_oracle_slot(Some(5), Some(5)), Ok(()));
}

#[test]
fn pyth_prices() {
    assert_eq!(pyth_price_with_confidence(100, 3), Ok((97, 103)));
    assert_eq!(pyth_price_with_confidence(-1, 0), Err(CoreError::InvalidPriceFeedPrice));
    assert_eq!(pyth_price_with_confidence(2, 3), Err(CoreError::InvalidPriceFeedPrice));
    assert_eq!(checked_pow10_u64(3), Some(1_000));
    assert_eq!(checked_pow10_u64(19), Some(10_000_000_000_000_000_000));
    assert_eq!(checked_pow10_u64(20), None);
    assert_eq!(pyth_price_value_to_decimal(12_345, -2), Ok((12_345, 2)));
    assert_eq!(pyth_price_value_to_decimal(12, 3), Ok((12_000, 0)));
    assert_eq!(pyth_price_value_to_decimal(u64::MAX, 1), Err(CoreError::InvalidPriceFeedPrice));
    assert_eq!(pyth_price_value_to_decimal(1, -300), Err(CoreError::InvalidPriceFeedPrice));
    // Price and confidence together.
    assert_eq!(pyth_price_with_confidence_to_price(12_345, 45, -2), Ok(((12_300, 2), (12_390, 2))));
    assert_eq!(pyth_price_with_confidence_to_price(12, 2, 3), Ok(((10_000, 0), (14_000, 0))));
    assert_eq!(pyth_price_with_confidence_to_price(7, 0, -1), Ok(((7, 1), (7, 1))));
    assert_eq!(pyth_price_with_confidence_to_price(2, 3, 0), Err(CoreError::InvalidPriceFeedPrice));
    assert_eq!(pyth_price_with_confidence_to_price(100, 0, -300), Err(CoreError::InvalidPriceFeedPrice));
}

#[test]
fn chainlink_rounds() {
    assert_eq!(check_chainlink_round(0, 10, 10, 5), Err(CoreError::InvalidPriceFeedPrice));
    assert_eq!(check_chainlink_round(7, 10, 16, 5), Err(CoreError::PriceFeedNotUpdated));
    assert_eq!(check_chainlink_round(7, 10, 15, 5), Ok(7));
    assert_eq!(check_chainlink_round(7, 20, 15, 5), Ok(7));
}

#[test]
fn feeds_layout() {
    let feeds = vec![addr(1), addr(2), addr(3)];
    assert_eq!(
        parse_feeds(&vec![0, 1], &vec![2, 1], &feeds),
        Ok(vec![
            (PriceProviderKind::Pyth, addr(1)),
            (PriceProviderKind::Pyth, addr(2)),
            (PriceProviderKind::Chainlink, addr(3)),
        ])
    );
    assert_eq!(parse_feeds(&vec![9], &vec![1], &feeds), Err(CoreError::InvalidProviderKindIndex));
    assert_eq!(parse_feeds(&vec![0], &vec![4], &feeds), Err(CoreError::NotEnoughFeeds));
    // A provider with no feeds is skipped, whatever its index.
    assert_eq!(parse_feeds(&vec![9, 2], &vec![0, 1], &feeds), Ok(vec![(PriceProviderKind::PythDev, addr(1))]));
}

#[test]
fn merging_ranges_in_either_order() {
    let base = PriceValidator::new(1_000, 60, 30, 5);
    let mut a = base;
    a.merge_range(Some(9), 990, 995);
    a.merge_range(Some(4), 980, 1_001);
    let mut b = base;
    b.merge_range(Some(4), 980, 1_001);
    b.merge_range(Some(9), 990, 995);
    assert_eq!(a, b);
    assert_eq!(a.finish(), Ok(Some((4, 980, 1_001))));
}

#[test]
fn feeds_to_accounts() {
    let meta = |n: u128| AccountMeta { pubkey: addr(n), is_signer: false, is_writable: false };
    let mut parser = FeedsParser::new();
    assert_eq!(parser.dispatch(&PriceProviderKind::Pyth, &addr(1)), Ok(meta(1)));
    parser.insert_pull_oracle_feed_parser(PriceProviderKind::Pyth, vec![(addr(1), addr(100))]);
    assert_eq!(parser.dispatch(&PriceProviderKind::Pyth, &addr(1)), Ok(meta(100)));
    assert_eq!(parser.dispatch(&PriceProviderKind::Pyth, &addr(2)), Err(FeedError::FeedAccountNotProvided));
    assert_eq!(parser.dispatch(&PriceProviderKind::Chainlink, &addr(2)), Ok(meta(2)));
    // A new map for a provider replaces the old one.
    parser.insert_pull_oracle_feed_parser(PriceProviderKind::Pyth, vec![(addr(2), addr(200))]);
    assert_eq!(parser.dispatch(&PriceProviderKind::Pyth, &addr(2)), Ok(meta(200)));
    assert_eq!(parser.dispatch(&PriceProviderKind::Pyth, &addr(1)), Err(FeedError::FeedAccountNotProvided));
    assert_eq!(
        parser.parse(&vec![0, 1], &vec![1, 1], &vec![addr(2), addr(5)]),
        Ok(vec![meta(200), meta(5)])
    );
    assert_eq!(
        parser.parse(&vec![0], &vec![1], &vec![addr(9)]),
        Err(FeedError::FeedAccountNotProvided)
    );
    assert_eq!(
        parser.parse(&vec![3], &vec![1], &vec![addr(9)]),
        Err(FeedError::Layout(CoreError::InvalidProviderKindIndex))
    );
}

#[test]
fn feeds_one_at_a_time() {
    // Groups with no feed are passed over, whatever their provider index.
    let mut feeds = Feeds::new(vec![0, 5, 1], vec![2, 0, 1], vec![addr(1), addr(2), addr(3)]);
    assert_eq!(feeds.next(), Some(Ok((PriceProviderKind::Pyth, addr(1)))));
    assert_eq!(feeds.next(), Some(Ok((PriceProviderKind::Pyth, addr(2)))));
    assert_eq!(feeds.next(), Some(Ok((PriceProviderKind::Chainlink, addr(3)))));
    assert_eq!(feeds.next(), None);
    // The valid feeds come first, then one error, then nothing.
    let mut feeds = Feeds::new(vec![0, 7, 1], vec![1, 1, 1], vec![addr(1), addr(2), addr(3)]);
    assert_eq!(feeds.next(), Some(Ok((PriceProviderKind::Pyth, addr(1)))));
    assert_eq!(feeds.next(), Some(Err(CoreError::InvalidProviderKindIndex)));
    assert_eq!(feeds.next(), None);
    assert_eq!(feeds.next(), None);
    // Running out of feeds gives an error.
    let mut feeds = Feeds::new(vec![2], vec![2], vec![addr(1)]);
    assert_eq!(feeds.next(), Some(Ok((PriceProviderKind::PythDev, addr(1)))));
    assert_eq!(feeds.next(), Some(Err(CoreError::NotEnoughFeeds)));
}
