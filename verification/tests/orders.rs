use gmsol::exchange::{
    check_execution_fee, common_tokens, create_order_tokens, create_withdrawal_tokens, TransferInMarket,
};
use gmsol::market::{Address, MarketMeta};
use gmsol::order::{
    cancel_order_plan, initialize_order, DataStoreError, ExchangeError, OrderKind, OrderParams, PositionAccount,
    TokenAccount,
};

fn addr(n: u128) -> Address {
    Address { hi: 0, lo: n }
}

fn meta() -> MarketMeta {
    MarketMeta { market_token_mint: addr(100), index_token_mint: addr(1), long_token_mint: addr(2), short_token_mint: addr(3) }
}

fn account(key: u128, mint: u128) -> Option<TokenAccount> {
    Some(TokenAccount { key: addr(key), mint: addr(mint) })
}

#[test]
fn order_params_builders() {
    let p = OrderParams::market_increase(1_000, true, 5_000);
    assert_eq!(p.kind, OrderKind::MarketIncrease);
    assert_eq!(p.initial_collateral_delta_amount, 1_000);
    assert_eq!(p.size_delta_usd, 5_000);
    assert!(p.need_to_transfer_in());
    let p = OrderParams::market_decrease(10, false, 50);
    assert_eq!(p.kind, OrderKind::MarketDecrease);
    assert!(!p.need_to_transfer_in());
    let p = OrderParams::limit_swap(7, 8);
    assert_eq!(p.min_output_amount, 7);
    assert_eq!(p.initial_collateral_delta_amount, 8);
    assert!(p.need_to_transfer_in());
    let p = OrderParams::stop_loss(true, 1, 99, 2);
    assert_eq!(p.trigger_price, Some(99));
    assert_eq!(p.kind, OrderKind::StopLossDecrease);
}

#[test]
fn cancel_refunds() {
    let increase = OrderParams::market_increase(1_000, true, 5_000);
    assert_eq!(cancel_order_plan(&increase, 500, 100, 300), Ok((1_000, 400)));
    // The execution fee is capped.
    assert_eq!(cancel_order_plan(&increase, 500, 1_000, 300), Ok((1_000, 200)));
    let decrease = OrderParams::market_decrease(1_000, true, 5_000);
    assert_eq!(cancel_order_plan(&decrease, 500, 100, 300), Ok((0, 400)));
    assert_eq!(cancel_order_plan(&decrease, 50, 100, 300), Err(ExchangeError::NotEnoughExecutionFee));
}

#[test]
fn initialize_swap_order() {
    let params = OrderParams::market_swap(10);
    let r = initialize_order(
        &meta(), &params, &addr(3), &addr(77), &account(10, 2), &account(11, 3), &None, &PositionAccount::Missing, 0,
    )
    .unwrap();
    assert_eq!(r.tokens.initial_collateral_token, addr(2));
    assert_eq!(r.tokens.output_token, addr(3));
    assert_eq!(r.senders.initial_collateral_token_account, Some(addr(10)));
    assert_eq!(r.receivers.final_output_token_account, Some(addr(11)));
    assert_eq!(r.receivers.ui_fee, addr(77));
    assert!(!r.init_position);
    let missing = initialize_order(
        &meta(), &params, &addr(3), &addr(77), &account(10, 2), &None, &None, &PositionAccount::Missing, 0,
    );
    assert_eq!(missing, Err(DataStoreError::MissingSender));
}

#[test]
fn initialize_increase_order() {
    let params = OrderParams::market_increase(10, false, 100);
    // A fresh position is to be initialized.
    let r = initialize_order(
        &meta(), &params, &addr(2), &addr(77), &account(10, 3), &None, &None, &PositionAccount::Uninitialized, 4,
    )
    .unwrap();
    assert!(r.init_position);
    assert_eq!(r.tokens.secondary_output_token, addr(3));
    assert_eq!(r.tokens.output_token, addr(2));
    // An existing position must hold the bump.
    let existing = PositionAccount::Initialized { bump: 4 };
    let r = initialize_order(&meta(), &params, &addr(2), &addr(77), &account(10, 3), &None, &None, &existing, 4).unwrap();
    assert!(!r.init_position);
    let wrong = PositionAccount::Initialized { bump: 5 };
    assert_eq!(
        initialize_order(&meta(), &params, &addr(2), &addr(77), &account(10, 3), &None, &None, &wrong, 4),
        Err(DataStoreError::InvalidPosition)
    );
    assert_eq!(
        initialize_order(&meta(), &params, &addr(1), &addr(77), &account(10, 3), &None, &None, &existing, 4),
        Err(DataStoreError::InvalidCollateralToken)
    );
    assert_eq!(
        initialize_order(&meta(), &params, &addr(2), &addr(77), &account(10, 3), &None, &None, &PositionAccount::Missing, 4),
        Err(DataStoreError::PositionIsNotProvided)
    );
    assert_eq!(
        initialize_order(&meta(), &params, &addr(2), &addr(77), &None, &None, &None, &existing, 4),
        Err(DataStoreError::MissingSender)
    );
}

#[test]
fn initialize_decrease_order() {
    let params = OrderParams::market_decrease(10, true, 100);
    let existing = PositionAccount::Initialized { bump: 1 };
    let r = initialize_order(
        &meta(), &params, &addr(3), &addr(77), &account(10, 3), &account(11, 3), &account(12, 2), &existing, 1,
    )
    .unwrap();
    assert_eq!(r.senders.initial_collateral_token_account, None);
    assert_eq!(r.receivers.final_output_token_account, Some(addr(11)));
    assert_eq!(r.receivers.secondary_output_token_account, Some(addr(12)));
    assert_eq!(r.tokens.secondary_output_token, addr(2));
    // A decrease order needs an initialized position.
    assert_eq!(
        initialize_order(
            &meta(), &params, &addr(3), &addr(77), &account(10, 3), &account(11, 3), &account(12, 2),
            &PositionAccount::Uninitialized, 1,
        ),
        Err(DataStoreError::AccountDiscriminatorMismatch)
    );
    assert_eq!(
        initialize_order(&meta(), &params, &addr(3), &addr(77), &account(10, 3), &account(11, 3), &None, &existing, 1),
        Err(DataStoreError::MissingSender)
    );
}

#[test]
fn order_tokens() {
    // Initial collateral 3, output 2: the set of the market tokens and the mints.
    let plan = create_order_tokens(OrderKind::MarketIncrease, &meta(), &addr(2), Some(addr(3)), None, None, 0, 0).unwrap();
    assert_eq!(plan.tokens, vec![addr(1), addr(2), addr(3)]);
    assert_eq!(plan.swap_in, addr(3));
    assert_eq!(plan.swap_out, addr(2));
    assert_eq!(plan.transfer_in, Some(TransferInMarket::OrderMarket));
    let plan = create_order_tokens(OrderKind::LimitSwap, &meta(), &addr(2), Some(addr(50)), None, None, 1, 1).unwrap();
    assert_eq!(plan.tokens, vec![addr(1), addr(2), addr(3), addr(50)]);
    assert_eq!(plan.transfer_in, Some(TransferInMarket::FirstRemainingAccount));
    let plan = create_order_tokens(OrderKind::MarketDecrease, &meta(), &addr(2), None, Some(addr(60)), None, 0, 0).unwrap();
    assert_eq!(plan.swap_in, addr(2));
    assert_eq!(plan.swap_out, addr(60));
    assert_eq!(plan.transfer_in, None);
    assert_eq!(
        create_order_tokens(OrderKind::Liquidation, &meta(), &addr(2), None, None, None, 0, 0),
        Err(ExchangeError::UnsupportedOrderKind)
    );
    assert_eq!(
        create_order_tokens(OrderKind::MarketIncrease, &meta(), &addr(9), Some(addr(3)), None, None, 0, 0),
        Err(ExchangeError::InvalidOutputToken)
    );
    assert_eq!(
        create_order_tokens(OrderKind::MarketIncrease, &meta(), &addr(2), Some(addr(3)), None, Some(addr(9)), 0, 0),
        Err(ExchangeError::InvalidSecondaryOutputToken)
    );
    assert_eq!(
        create_order_tokens(OrderKind::MarketIncrease, &meta(), &addr(2), Some(addr(3)), None, None, 1, 2),
        Err(ExchangeError::NotEnoughRemainingAccounts)
    );
    assert_eq!(
        create_order_tokens(OrderKind::MarketIncrease, &meta(), &addr(2), None, None, None, 0, 0),
        Err(ExchangeError::MissingTokenAccountForOrder)
    );
    assert_eq!(
        create_order_tokens(OrderKind::MarketDecrease, &meta(), &addr(2), None, None, None, 0, 0),
        Err(ExchangeError::MissingTokenAccountForOrder)
    );
    assert_eq!(common_tokens(&meta(), &addr(3), false, None, None, None), Ok(vec![addr(2), addr(3)]));
}

#[test]
fn execution_fee_and_withdrawals() {
    assert_eq!(check_execution_fee(10, 90, 100), Ok(()));
    assert_eq!(check_execution_fee(10, 89, 100), Err(ExchangeError::NotEnoughExecutionFee));
    assert_eq!(
        create_withdrawal_tokens(5, &meta(), &addr(100), &addr(2), &addr(7), 3, 1, 2),
        Ok(vec![addr(1), addr(2), addr(3), addr(7)])
    );
    assert_eq!(
        create_withdrawal_tokens(0, &meta(), &addr(100), &addr(2), &addr(7), 3, 1, 2),
        Err(ExchangeError::EmptyWithdrawalAmount)
    );
    assert_eq!(
        create_withdrawal_tokens(5, &meta(), &addr(101), &addr(2), &addr(7), 3, 1, 2),
        Err(ExchangeError::MismatchedMarketTokenMint)
    );
    assert_eq!(
        create_withdrawal_tokens(5, &meta(), &addr(100), &addr(2), &addr(7), 2, 1, 2),
        Err(ExchangeError::NotEnoughRemainingAccounts)
    );
}
