use gmsol::feeds::PriceProviderKind;
use gmsol::hermes::{get_query, EncodingType};
use gmsol::market::Address;
use gmsol::pda::{
    create_executor_wallet_pda, find_associated_token_address, find_executor_wallet_pda, find_market_address,
    find_market_token_address,
    find_market_vault_address, StoreFilter,
};
use gmsol::pull_oracle::{
    AfterBuild, PythExecution, combine_send_results, plan_price_updates, split_vaa, FeedPriceUpdate, Identifier, PriceUpdateInstructions,
    SendFailure, WithPythPrices, VAA_SPLIT_INDEX,
};
use gmsol::ser::{Encoding, SerdeFactor, SerializeFeedConfig};
use gmsol::treasury::{
    complete_gt_exchange_accounts, toggle_value, tokens_with_programs, treasury_config_address,
    validate_referral_reward_factors, AccountMeta, TreasuryError,
};

fn addr(n: u128) -> Address {
    Address { hi: 7, lo: n }
}

#[test]
fn feed_config_text() {
    let pyth = SerializeFeedConfig::with_hint(&PriceProviderKind::Pyth, &[0xab, 0x01, 0x00], 3);
    assert_eq!(pyth.feed_id, "ab0100");
    assert_eq!(pyth.feed_id_encoding, Encoding::Hex);
    assert_eq!(pyth.timestamp_adjustment, 3);
    assert_eq!(pyth.formatted_feed_id(), "0xab0100");
    let chainlink = SerializeFeedConfig::with_hint(&PriceProviderKind::Chainlink, &[0, 0, 1], 0);
    assert_eq!(chainlink.feed_id, "112");
    assert_eq!(chainlink.feed_id_encoding, Encoding::Base58);
    assert_eq!(chainlink.formatted_feed_id(), "112");
    let dev = SerializeFeedConfig::with_hint(&PriceProviderKind::PythDev, &[255], 0);
    assert_eq!(dev.feed_id, "5Q");
}

#[test]
fn factors_in_text() {
    assert_eq!(SerdeFactor(1_234_500).to_string(), "1234500");
    assert_eq!(SerdeFactor(0).to_string(), "0");
    assert_eq!(SerdeFactor::from_str(&SerdeFactor(u128::MAX).to_string()), Ok(SerdeFactor(u128::MAX)));
    assert_eq!(SerdeFactor::from_str("1_000_000"), Ok(SerdeFactor(1_000_000)));
    assert_eq!(SerdeFactor::from_str("+42"), Ok(SerdeFactor(42)));
    assert_eq!(SerdeFactor::from_str("340282366920938463463374607431768211455"), Ok(SerdeFactor(u128::MAX)));
    assert!(SerdeFactor::from_str("340282366920938463463374607431768211456").is_err());
    assert!(SerdeFactor::from_str("").is_err());
    assert!(SerdeFactor::from_str("_").is_err());
    assert!(SerdeFactor::from_str("12a").is_err());
    assert!(SerdeFactor::from_str("-1").is_err());
}

#[test]
fn hermes_query() {
    let ids = vec![Identifier { hi: 0, lo: 0xff }, Identifier { hi: 0x0102 << 112, lo: 0 }];
    let query = get_query(&ids, Some(EncodingType::Base64));
    assert_eq!(query.len(), 3);
    assert_eq!(query[0].0, "ids[]");
    assert_eq!(query[0].1, format!("{}ff", "0".repeat(62)));
    assert_eq!(query[1].1, format!("0102{}", "0".repeat(60)));
    assert_eq!(query[2], ("encoding", "base64".to_string()));
    let query = get_query(&ids, None);
    assert_eq!(query.len(), 2);
    assert_eq!(EncodingType::default_encoding().as_str(), "hex");
}

#[test]
fn identifier_bytes() {
    let id = Identifier { hi: 1, lo: 0x0203 };
    let bytes = id.to_bytes();
    assert_eq!(bytes.len(), 32);
    assert_eq!(bytes[15], 1);
    assert_eq!(bytes[30], 2);
    assert_eq!(bytes[31], 3);
    let a = Address { hi: 0xaa << 120, lo: 9 };
    let b = a.to_bytes();
    assert_eq!(b[0], 0xaa);
    assert_eq!(b[31], 9);
}

#[test]
fn program_addresses() {
    let program = addr(1000);
    let (market, bump) = find_market_address(&addr(1), &addr(2), &program).unwrap();
    assert_ne!(market, program);
    // The derivation depends on every seed and is the same each time.
    assert_eq!(find_market_address(&addr(1), &addr(2), &program), Some((market, bump)));
    assert_ne!(find_market_address(&addr(1), &addr(3), &program).unwrap().0, market);
    assert_ne!(find_market_address(&addr(1), &addr(2), &addr(1001)).unwrap().0, market);
    assert_ne!(find_market_vault_address(&addr(1), &addr(2), &program).unwrap().0, market);
    assert_ne!(find_market_token_address(&addr(1), &addr(2), &addr(3), &addr(4), &program).unwrap().0, market);
    // The wallet derived from its bump seed is the wallet that was found.
    let (wallet, wallet_bump) = find_executor_wallet_pda(&addr(5), &program).unwrap();
    assert_eq!(create_executor_wallet_pda(&addr(5), wallet_bump, &program), Ok(wallet));
}

#[test]
fn store_filter() {
    let filter = StoreFilter::new(&addr(1), 40);
    assert_eq!(filter.filter_bytes(true), (40, addr(1).to_bytes()));
    assert_eq!(filter.filter_bytes(false), (48, addr(1).to_bytes()));
}

fn update(id: u128, vaa_byte: u8) -> FeedPriceUpdate {
    FeedPriceUpdate { feed_id: Identifier { hi: 0, lo: id }, vaa: vec![vaa_byte; 800] }
}

#[test]
fn price_update_plan() {
    // Feed 1 is updated twice: the later update wins. Two updates share a VAA.
    let updates = vec![update(1, 0xaa), update(2, 0xaa), update(1, 0xbb), update(3, 0xaa)];
    let requested = vec![Identifier { hi: 0, lo: 1 }, Identifier { hi: 0, lo: 3 }];
    let plan = plan_price_updates(&updates, &requested);
    assert_eq!(plan.vaas, vec![1, 2]);
    assert_eq!(plan.posts, vec![(2, 1), (3, 0)]);
    let plan = plan_price_updates(&vec![], &requested);
    assert!(plan.vaas.is_empty() && plan.posts.is_empty());
}

#[test]
fn vaa_is_written_in_two_parts() {
    let vaa: Vec<u8> = (0..800u32).map(|i| (i % 251) as u8).collect();
    let (first, second) = split_vaa(&vaa);
    assert_eq!(first.len(), VAA_SPLIT_INDEX);
    assert_eq!(second.len(), 800 - VAA_SPLIT_INDEX);
    assert_eq!([first, second].concat(), vaa);
}

#[test]
fn sending_post_and_close() {
    assert_eq!(combine_send_results::<u8, &str>((vec![1, 2], None), (vec![3], None)), Ok(vec![1, 2, 3]));
    assert_eq!(
        combine_send_results((vec![1], Some("post")), (vec![2], None)),
        Err((vec![1, 2], SendFailure::Post("post")))
    );
    assert_eq!(
        combine_send_results((vec![1], None), (vec![], Some("close"))),
        Err((vec![1], SendFailure::Close("close")))
    );
    assert_eq!(
        combine_send_results::<u8, &str>((vec![], Some("a")), (vec![], Some("b"))),
        Err((vec![], SendFailure::Both("a", "b")))
    );
    assert_eq!(WithPythPrices::<u8>::estimated_execution_fee(5, 7), 12);
    assert_eq!(WithPythPrices::<u8>::estimated_execution_fee(u64::MAX, 7), u64::MAX);
}

#[test]
fn price_update_instructions() {
    let mut ixs = PriceUpdateInstructions::new();
    assert_eq!(ixs.try_push_post(1), Ok(()));
    assert_eq!(ixs.try_push_close(9), Ok(()));
    assert_eq!(ixs.try_push_post(2), Ok(()));
    assert_eq!(ixs.with_consume(vec![5, 6]), vec![1, 2, 5, 6, 9]);
}

#[test]
fn treasury_checks() {
    assert_eq!(validate_referral_reward_factors(&vec![]), Err(TreasuryError::EmptyFactors));
    assert_eq!(validate_referral_reward_factors(&vec![1]), Ok(()));
    assert!(toggle_value(true, false));
    assert!(!toggle_value(false, true));
    assert_eq!(treasury_config_address(Some(addr(1)), None), Ok(addr(1)));
    assert_eq!(treasury_config_address(None, None), Err(TreasuryError::NotFound));
    assert_eq!(treasury_config_address(None, Some(None)), Err(TreasuryError::TreasuryConfigNotSet));
    assert_eq!(treasury_config_address(None, Some(Some(addr(2)))), Ok(addr(2)));
}

#[test]
fn gt_exchange_accounts() {
    let tokens = vec![addr(1), addr(2)];
    assert_eq!(tokens_with_programs(&tokens, &vec![Some(addr(10)), None]), Err(TreasuryError::NotFound));
    let with_programs = tokens_with_programs(&tokens, &vec![Some(addr(10)), Some(addr(11))]).unwrap();
    assert_eq!(with_programs, vec![(addr(1), addr(10)), (addr(2), addr(11))]);
    // The GT bank is addr(20) and the owner addr(30): their associated token accounts for each
    // (mint, token program), derived from the seeds [wallet, token program, mint].
    let accounts = complete_gt_exchange_accounts(&with_programs, &addr(20), &addr(30)).unwrap();
    let meta = |pubkey: Address, w: bool| AccountMeta { pubkey, is_signer: false, is_writable: w };
    let bank_1 = Address { hi: 0x16423c4ad86ce24ebdb8498eb95be806, lo: 0x82f912e8c1c4eea3968449d2184980ea };
    let bank_2 = Address { hi: 0x04f1574e53c178a20851c0015d4c234a, lo: 0xfe607d8e40d246fc6b5e007b3887777b };
    let owner_1 = Address { hi: 0xb455ba840a46028f759c9ec27bfb1a20, lo: 0x4ca76e0a01166dc776f43226c06e23c5 };
    let owner_2 = Address { hi: 0xe95d541d9e879fccf02062859ce8a178, lo: 0xec02518c73c2b8f29daaf66fbd94cbe5 };
    assert_eq!(
        accounts,
        vec![
            meta(addr(1), false),
            meta(addr(2), false),
            meta(bank_1, true),
            meta(bank_2, true),
            meta(owner_1, true),
            meta(owner_2, true),
        ]
    );
    assert_eq!(find_associated_token_address(&addr(30), &addr(2), &addr(11)), Some(owner_2));
    assert_eq!(complete_gt_exchange_accounts(&vec![], &addr(20), &addr(30)), Some(vec![]));
}

#[test]
fn execution_loop_builds_at_most_twice() {
    let mut fresh = PythExecution::new(false);
    assert_eq!(fresh.after_build(), AfterBuild::EstimateFeeAndRebuild);
    assert_eq!(fresh.after_build(), AfterBuild::Execute);
    let mut estimated = PythExecution::new(true);
    assert_eq!(estimated.after_build(), AfterBuild::Execute);
}
