//! Order parameters and the decisions around creating and cancelling orders.
use vstd::prelude::*;

use crate::market::{Address, MarketMeta};

verus! {

/// Order kind.
#[derive(Debug, Clone, Copy, PartialEq, Eq, Structural)]
pub enum OrderKind {
    /// Liquidation: close a position.
    Liquidation,
    /// Swap with the market price.
    MarketSwap,
    /// Increase a position at the market price.
    MarketIncrease,
    /// Decrease a position at the market price.
    MarketDecrease,
    /// Swap at a limit price.
    LimitSwap,
    /// Increase a position at a limit price.
    LimitIncrease,
    /// Decrease a position at a limit price.
    LimitDecrease,
    /// Decrease a position at a stop-loss price.
    StopLossDecrease,
}

/// Order params.
#[derive(Debug, Clone, Copy, PartialEq, Eq, Structural)]
pub struct OrderParams {
    /// Order kind.
    pub kind: OrderKind,
    /// Min output amount or min output value.
    pub min_output_amount: u128,
    /// Size delta usd.
    pub size_delta_usd: u128,
    /// Initial collateral delta amount.
    pub initial_collateral_delta_amount: u64,
    /// Acceptable price (unit price).
    pub acceptable_price: Option<u128>,
    /// Trigger price (unit price).
    pub trigger_price: Option<u128>,
    /// Whether the order is for a long or short position.
    pub is_long: bool,
}

/// Whether tokens must be transferred in when the order is created: increase and swap orders.
pub open spec fn need_to_transfer_in_spec(kind: OrderKind) -> bool {
    match kind {
        OrderKind::MarketIncrease | OrderKind::MarketSwap | OrderKind::LimitIncrease
        | OrderKind::LimitSwap => true,
        _ => false,
    }
}

impl OrderParams {
    /// Whether tokens must be transferred in when the order is created.
    pub fn need_to_transfer_in(&self) -> (r: bool)
        ensures
            r == need_to_transfer_in_spec(self.kind),
    {
        match self.kind {
            OrderKind::MarketIncrease | OrderKind::MarketSwap | OrderKind::LimitIncrease
            | OrderKind::LimitSwap => true,
            _ => false,
        }
    }

    /// Params of a market increase position order.
    pub fn market_increase(initial_collateral_amount: u64, is_long: bool, increment_size_in_usd: u128) -> (r:
        Self)
        ensures
            r == (OrderParams {
                kind: OrderKind::MarketIncrease,
                min_output_amount: 0,
                size_delta_usd: increment_size_in_usd,
                initial_collateral_delta_amount: initial_collateral_amount,
                acceptable_price: None,
                trigger_price: None,
                is_long,
            }),
    {
        OrderParams {
            kind: OrderKind::MarketIncrease,
            min_output_amount: 0,
            size_delta_usd: increment_size_in_usd,
            initial_collateral_delta_amount: initial_collateral_amount,
            acceptable_price: None,
            trigger_price: None,
            is_long,
        }
    }

    /// Params of a market decrease position order.
    pub fn market_decrease(collateral_withdrawal_amount: u64, is_long: bool, decrement_size_in_usd: u128) -> (r:
        Self)
        ensures
            r == (OrderParams {
                kind: OrderKind::MarketDecrease,
                min_output_amount: 0,
                size_delta_usd: decrement_size_in_usd,
                initial_collateral_delta_amount: collateral_withdrawal_amount,
                acceptable_price: None,
                trigger_price: None,
                is_long,
            }),
    {
        OrderParams {
            kind: OrderKind::MarketDecrease,
            min_output_amount: 0,
            size_delta_usd: decrement_size_in_usd,
            initial_collateral_delta_amount: collateral_withdrawal_amount,
            acceptable_price: None,
            trigger_price: None,
            is_long,
        }
    }

    /// Params of a market swap order.
    pub fn market_swap(initial_swap_in_token_amount: u64) -> (r: Self)
        ensures
            r == (OrderParams {
                kind: OrderKind::MarketSwap,
                min_output_amount: 0,
                size_delta_usd: 0,
                initial_collateral_delta_amount: initial_swap_in_token_amount,
                acceptable_price: None,
                trigger_price: None,
                is_long: true,
            }),
    {
        OrderParams {
            kind: OrderKind::MarketSwap,
            min_output_amount: 0,
            size_delta_usd: 0,
            initial_collateral_delta_amount: initial_swap_in_token_amount,
            acceptable_price: None,
            trigger_price: None,
            is_long: true,
        }
    }

    /// Params of a limit increase order triggered at `price`.
    pub fn limit_increase(is_long: bool, increment_size_in_usd: u128, price: u128, initial_collateral_amount: u64) -> (r:
        Self)
        ensures
            r == (OrderParams {
                kind: OrderKind::LimitIncrease,
                min_output_amount: 0,
                size_delta_usd: increment_size_in_usd,
                initial_collateral_delta_amount: initial_collateral_amount,
                acceptable_price: None,
                trigger_price: Some(price),
                is_long,
            }),
    {
        OrderParams {
            kind: OrderKind::LimitIncrease,
            min_output_amount: 0,
            size_delta_usd: increment_size_in_usd,
            initial_collateral_delta_amount: initial_collateral_amount,
            acceptable_price: None,
            trigger_price: Some(price),
            is_long,
        }
    }

    /// Params of a limit decrease order triggered at `price`.
    pub fn limit_decrease(is_long: bool, decrement_size_in_usd: u128, price: u128, collateral_withdrawal_amount: u64) -> (r:
        Self)
        ensures
            r == (OrderParams {
                kind: OrderKind::LimitDecrease,
                min_output_amount: 0,
                size_delta_usd: decrement_size_in_usd,
                initial_collateral_delta_amount: collateral_withdrawal_amount,
                acceptable_price: None,
                trigger_price: Some(price),
                is_long,
            }),
    {
        OrderParams {
            kind: OrderKind::LimitDecrease,
            min_output_amount: 0,
            size_delta_usd: decrement_size_in_usd,
            initial_collateral_delta_amount: collateral_withdrawal_amount,
            acceptable_price: None,
            trigger_price: Some(price),
            is_long,
        }
    }

    /// Params of a stop-loss decrease order triggered at `price`.
    pub fn stop_loss(is_long: bool, decrement_size_in_usd: u128, price: u128, collateral_withdrawal_amount: u64) -> (r:
        Self)
        ensures
            r == (OrderParams {
                kind: OrderKind::StopLossDecrease,
                min_output_amount: 0,
                size_delta_usd: decrement_size_in_usd,
                initial_collateral_delta_amount: collateral_withdrawal_amount,
                acceptable_price: None,
                trigger_price: Some(price),
                is_long,
            }),
    {
        OrderParams {
            kind: OrderKind::StopLossDecrease,
            min_output_amount: 0,
            size_delta_usd: decrement_size_in_usd,
            initial_collateral_delta_amount: collateral_withdrawal_amount,
            acceptable_price: None,
            trigger_price: Some(price),
            is_long,
        }
    }

    /// Params of a limit swap order with a min output amount.
    pub fn limit_swap(min_output_amount: u64, initial_swap_in_token_amount: u64) -> (r: Self)
        ensures
            r == (OrderParams {
                kind: OrderKind::LimitSwap,
                min_output_amount: min_output_amount as u128,
                size_delta_usd: 0,
                initial_collateral_delta_amount: initial_swap_in_token_amount,
                acceptable_price: None,
                trigger_price: None,
                is_long: true,
            }),
    {
        OrderParams {
            kind: OrderKind::LimitSwap,
            min_output_amount: min_output_amount as u128,
            size_delta_usd: 0,
            initial_collateral_delta_amount: initial_swap_in_token_amount,
            acceptable_price: None,
            trigger_price: None,
            is_long: true,
        }
    }
}

/// Errors of order cancellation.
#[derive(Debug, Clone, Copy, PartialEq, Eq, Structural)]
pub enum ExchangeError {
    /// The order account does not hold enough lamports for the execution fee.
    NotEnoughExecutionFee,
    /// The order kind is not supported.
    UnsupportedOrderKind,
    /// The secondary output token is not one of the tokens of the order.
    InvalidSecondaryOutputToken,
    /// The output token is not one of the tokens of the order.
    InvalidOutputToken,
    /// Not enough remaining accounts for the swap path.
    NotEnoughRemainingAccounts,
    /// A token account that the order needs is missing.
    MissingTokenAccountForOrder,
    /// A withdrawal of no market tokens.
    EmptyWithdrawalAmount,
    /// The market token account holds another token than the market token.
    MismatchedMarketTokenMint,
    /// An account needed to transfer tokens in is missing.
    InvalidArgument,
}

/// What cancelling an order returns: the tokens to transfer back and the lamports to refund.
pub open spec fn cancel_plan_spec(params: OrderParams, lamports: u64, execution_fee: u64, max_execution_fee: u64) -> Result<
    (u64, u64),
    ExchangeError,
> {
    let amount = if need_to_transfer_in_spec(params.kind) {
        params.initial_collateral_delta_amount
    } else {
        0
    };
    let fee = if execution_fee <= max_execution_fee {
        execution_fee
    } else {
        max_execution_fee
    };
    if lamports < fee {
        Err(ExchangeError::NotEnoughExecutionFee)
    } else {
        Ok((amount, (lamports - fee) as u64))
    }
}

/// Plan the cancellation of an order: the collateral transferred in at creation goes back, and the
/// order's lamports are refunded less the execution fee (capped at `max_execution_fee`).
pub fn cancel_order_plan(params: &OrderParams, lamports: u64, execution_fee: u64, max_execution_fee: u64) -> (r:
    Result<(u64, u64), ExchangeError>)
    ensures
        r == cancel_plan_spec(*params, lamports, execution_fee, max_execution_fee),
{
    let amount_to_cancel = if params.need_to_transfer_in() {
        params.initial_collateral_delta_amount
    } else {
        0
    };
    let fee = if execution_fee <= max_execution_fee {
        execution_fee
    } else {
        max_execution_fee
    };
    match lamports.checked_sub(fee) {
        None => Err(ExchangeError::NotEnoughExecutionFee),
        Some(refund) => Ok((amount_to_cancel, refund)),
    }
}

/// A token account handed to an instruction: its address and its mint.
#[derive(Debug, Clone, Copy, PartialEq, Eq, Structural)]
pub struct TokenAccount {
    /// The address of the account.
    pub key: Address,
    /// The mint of the tokens it holds.
    pub mint: Address,
}

/// The position account handed to the initialization of an order.
#[derive(Debug, Clone, Copy, PartialEq, Eq, Structural)]
pub enum PositionAccount {
    /// No position account was provided.
    Missing,
    /// A position account that is not initialized yet.
    Uninitialized,
    /// An initialized position account, with the bump it was created with.
    Initialized {
        /// The bump seed stored in the position.
        bump: u8,
    },
}

/// Errors of the data store program.
#[derive(Debug, Clone, Copy, PartialEq, Eq, Structural)]
pub enum DataStoreError {
    /// A sender or receiver token account is missing.
    MissingSender,
    /// The position account is not provided.
    PositionIsNotProvided,
    /// The position does not match the expected one.
    InvalidPosition,
    /// The collateral token is not a collateral token of the market.
    InvalidCollateralToken,
    /// The position account is not initialized.
    AccountDiscriminatorMismatch,
}

/// The tokens of an order.
#[derive(Debug, Clone, Copy, PartialEq, Eq, Structural)]
pub struct Tokens {
    /// The market token.
    pub market_token: Address,
    /// The initial collateral token.
    pub initial_collateral_token: Address,
    /// The output token.
    pub output_token: Address,
    /// The secondary output token.
    pub secondary_output_token: Address,
    /// The final output token.
    pub final_output_token: Option<Address>,
}

/// The token accounts that an order takes tokens from.
#[derive(Debug, Clone, Copy, PartialEq, Eq, Structural)]
pub struct Senders {
    /// The initial collateral token account.
    pub initial_collateral_token_account: Option<Address>,
}

/// The accounts that an order pays out to.
#[derive(Debug, Clone, Copy, PartialEq, Eq, Structural)]
pub struct Receivers {
    /// The receiver of the UI fee.
    pub ui_fee: Address,
    /// The final output token account.
    pub final_output_token_account: Option<Address>,
    /// The secondary output token account.
    pub secondary_output_token_account: Option<Address>,
}

/// What the initialization of an order writes: its tokens, senders and receivers, and whether
/// the position account is to be initialized.
#[derive(Debug, Clone, Copy, PartialEq, Eq, Structural)]
pub struct OrderInit {
    /// The tokens of the order.
    pub tokens: Tokens,
    /// The senders of the order.
    pub senders: Senders,
    /// The receivers of the order.
    pub receivers: Receivers,
    /// Whether the position account is to be initialized for this order.
    pub init_position: bool,
}

/// The kinds of orders that the data store initializes.
pub open spec fn store_order_kind(kind: OrderKind) -> bool {
    match kind {
        OrderKind::MarketSwap | OrderKind::MarketIncrease | OrderKind::MarketDecrease
        | OrderKind::Liquidation => true,
        _ => false,
    }
}

/// The check of a position for an order on `output_token`: the token is a collateral token, the
/// position is provided and initialized, and holds the expected bump.
pub open spec fn validate_position_spec(meta: MarketMeta, output_token: Address, position: PositionAccount, bump: u8) -> Result<
    (),
    DataStoreError,
> {
    if output_token != meta.long_token_mint && output_token != meta.short_token_mint {
        Err(DataStoreError::InvalidCollateralToken)
    } else {
        match position {
            PositionAccount::Missing => Err(DataStoreError::PositionIsNotProvided),
            PositionAccount::Uninitialized => Err(DataStoreError::AccountDiscriminatorMismatch),
            PositionAccount::Initialized { bump: b } => if b == bump {
                Ok(())
            } else {
                Err(DataStoreError::InvalidPosition)
            },
        }
    }
}

/// The check of a position for an increase order: as for the other orders, except that a position
/// that is not initialized yet is to be initialized (`Ok(true)`).
pub open spec fn prepare_position_spec(meta: MarketMeta, output_token: Address, position: PositionAccount, bump: u8) -> Result<
    bool,
    DataStoreError,
> {
    if output_token != meta.long_token_mint && output_token != meta.short_token_mint {
        Err(DataStoreError::InvalidCollateralToken)
    } else {
        match position {
            PositionAccount::Missing => Err(DataStoreError::PositionIsNotProvided),
            PositionAccount::Uninitialized => Ok(true),
            PositionAccount::Initialized { .. } => match validate_position_spec(meta, output_token, position, bump) {
                Ok(()) => Ok(false),
                Err(e) => Err(e),
            },
        }
    }
}

/// What initializing an order writes, or the error it fails with.
pub open spec fn initialize_order_spec(
    meta: MarketMeta,
    params: OrderParams,
    output_token: Address,
    ui_fee_receiver: Address,
    initial_collateral: Option<TokenAccount>,
    final_output: Option<TokenAccount>,
    secondary_output: Option<TokenAccount>,
    position: PositionAccount,
    position_bump: u8,
) -> Result<OrderInit, DataStoreError> {
    match params.kind {
        OrderKind::MarketSwap => match (initial_collateral, final_output) {
            (Some(ic), Some(fo)) => Ok(
                OrderInit {
                    tokens: Tokens {
                        market_token: meta.market_token_mint,
                        initial_collateral_token: ic.mint,
                        output_token: fo.mint,
                        secondary_output_token: fo.mint,
                        final_output_token: None,
                    },
                    senders: Senders { initial_collateral_token_account: Some(ic.key) },
                    receivers: Receivers {
                        ui_fee: ui_fee_receiver,
                        final_output_token_account: Some(fo.key),
                        secondary_output_token_account: None,
                    },
                    init_position: false,
                },
            ),
            _ => Err(DataStoreError::MissingSender),
        },
        OrderKind::MarketIncrease => match prepare_position_spec(meta, output_token, position, position_bump) {
            Err(e) => Err(e),
            Ok(init_position) => match initial_collateral {
                None => Err(DataStoreError::MissingSender),
                Some(ic) => Ok(
                    OrderInit {
                        tokens: Tokens {
                            market_token: meta.market_token_mint,
                            initial_collateral_token: ic.mint,
                            output_token,
                            secondary_output_token: if params.is_long {
                                meta.long_token_mint
                            } else {
                                meta.short_token_mint
                            },
                            final_output_token: None,
                        },
                        senders: Senders { initial_collateral_token_account: Some(ic.key) },
                        receivers: Receivers {
                            ui_fee: ui_fee_receiver,
                            final_output_token_account: None,
                            secondary_output_token_account: None,
                        },
                        init_position,
                    },
                ),
            },
        },
        _ => match validate_position_spec(meta, output_token, position, position_bump) {
            Err(e) => Err(e),
            Ok(()) => match (initial_collateral, final_output, secondary_output) {
                (Some(ic), Some(fo), Some(so)) => Ok(
                    OrderInit {
                        tokens: Tokens {
                            market_token: meta.market_token_mint,
                            initial_collateral_token: ic.mint,
                            output_token,
                            secondary_output_token: if params.is_long {
                                meta.long_token_mint
                            } else {
                                meta.short_token_mint
                            },
                            final_output_token: None,
                        },
                        senders: Senders { initial_collateral_token_account: None },
                        receivers: Receivers {
                            ui_fee: ui_fee_receiver,
                            final_output_token_account: Some(fo.key),
                            secondary_output_token_account: Some(so.key),
                        },
                        init_position: false,
                    },
                ),
                _ => Err(DataStoreError::MissingSender),
            },
        },
    }
}

fn required_account(account: &Option<TokenAccount>) -> (r: Result<TokenAccount, DataStoreError>)
    ensures
        match *account {
            Some(a) => r == Ok::<TokenAccount, DataStoreError>(a),
            None => r == Err::<TokenAccount, DataStoreError>(DataStoreError::MissingSender),
        },
{
    match account {
        Some(a) => Ok(*a),
        None => Err(DataStoreError::MissingSender),
    }
}

/// Validate the position to make sure it is initialized and valid.
pub fn validate_position(meta: &MarketMeta, output_token: &Address, position: &PositionAccount, bump: u8) -> (r:
    Result<(), DataStoreError>)
    ensures
        r == validate_position_spec(*meta, *output_token, *position, bump),
{
    if meta.validate_collateral_token(output_token).is_err() {
        return Err(DataStoreError::InvalidCollateralToken);
    }
    match position {
        PositionAccount::Missing => Err(DataStoreError::PositionIsNotProvided),
        PositionAccount::Uninitialized => Err(DataStoreError::AccountDiscriminatorMismatch),
        PositionAccount::Initialized { bump: b } => {
            if *b == bump {
                Ok(())
            } else {
                Err(DataStoreError::InvalidPosition)
            }
        },
    }
}

/// Check the position of an increase order: `Ok(true)` when the position account is still to be
/// initialized, `Ok(false)` when it is initialized and valid.
pub fn initialize_position_if_needed(meta: &MarketMeta, output_token: &Address, position: &PositionAccount, bump: u8) -> (r:
    Result<bool, DataStoreError>)
    ensures
        r == prepare_position_spec(*meta, *output_token, *position, bump),
{
    if meta.validate_collateral_token(output_token).is_err() {
        return Err(DataStoreError::InvalidCollateralToken);
    }
    match position {
        PositionAccount::Missing => Err(DataStoreError::PositionIsNotProvided),
        PositionAccount::Uninitialized => Ok(true),
        PositionAccount::Initialized { .. } => {
            validate_position(meta, output_token, position, bump)?;
            Ok(false)
        },
    }
}

/// Initialize an order: validate the accounts handed to the instruction and work out the tokens,
/// senders and receivers of the order, and whether its position is to be initialized.
pub fn initialize_order(
    meta: &MarketMeta,
    params: &OrderParams,
    output_token: &Address,
    ui_fee_receiver: &Address,
    initial_collateral: &Option<TokenAccount>,
    final_output: &Option<TokenAccount>,
    secondary_output: &Option<TokenAccount>,
    position: &PositionAccount,
    position_bump: u8,
) -> (r: Result<OrderInit, DataStoreError>)
    requires
        store_order_kind(params.kind),
    ensures
        r == initialize_order_spec(
            *meta,
            *params,
            *output_token,
            *ui_fee_receiver,
            *initial_collateral,
            *final_output,
            *secondary_output,
            *position,
            position_bump,
        ),
{
    match params.kind {
        OrderKind::MarketSwap => {
            let ic = required_account(initial_collateral)?;
            let fo = required_account(final_output)?;
            Ok(
                OrderInit {
                    tokens: Tokens {
                        market_token: meta.market_token_mint,
                        initial_collateral_token: ic.mint,
                        output_token: fo.mint,
                        secondary_output_token: fo.mint,
                        final_output_token: None,
                    },
                    senders: Senders { initial_collateral_token_account: Some(ic.key) },
                    receivers: Receivers {
                        ui_fee: *ui_fee_receiver,
                        final_output_token_account: Some(fo.key),
                        secondary_output_token_account: None,
                    },
                    init_position: false,
                },
            )
        },
        OrderKind::MarketIncrease => {
            let init_position = initialize_position_if_needed(meta, output_token, position, position_bump)?;
            let ic = required_account(initial_collateral)?;
            Ok(
                OrderInit {
                    tokens: Tokens {
                        market_token: meta.market_token_mint,
                        initial_collateral_token: ic.mint,
                        output_token: *output_token,
                        secondary_output_token: meta.pnl_token(params.is_long),
                        final_output_token: None,
                    },
                    senders: Senders { initial_collateral_token_account: Some(ic.key) },
                    receivers: Receivers {
                        ui_fee: *ui_fee_receiver,
                        final_output_token_account: None,
                        secondary_output_token_account: None,
                    },
                    init_position,
                },
            )
        },
        _ => {
            validate_position(meta, output_token, position, position_bump)?;
            let ic = required_account(initial_collateral)?;
            let fo = required_account(final_output)?;
            let so = required_account(secondary_output)?;
            Ok(
                OrderInit {
                    tokens: Tokens {
                        market_token: meta.market_token_mint,
                        initial_collateral_token: ic.mint,
                        output_token: *output_token,
                        secondary_output_token: meta.pnl_token(params.is_long),
                        final_output_token: None,
                    },
                    senders: Senders { initial_collateral_token_account: None },
                    receivers: Receivers {
                        ui_fee: *ui_fee_receiver,
                        final_output_token_account: Some(fo.key),
                        secondary_output_token_account: Some(so.key),
                    },
                    init_position: false,
                },
            )
        },
    }
}

/// Orders that move tokens in when they are created are exactly the increase and swap orders,
/// market or limit.
pub proof fn lemma_transfer_in_kinds(kind: OrderKind)
    ensures
        need_to_transfer_in_spec(kind) <==> (kind == OrderKind::MarketIncrease || kind == OrderKind::MarketSwap || kind
            == OrderKind::LimitIncrease || kind == OrderKind::LimitSwap),
{
}

/// Cancelling an order gives back the collateral it transferred in at creation, which increase and
/// swap orders (market or limit) do and the others do not, and refunds its lamports less the
/// execution fee, capped at the max; it fails only when the lamports cannot pay that fee.
pub proof fn lemma_cancel_plan(params: OrderParams, lamports: u64, execution_fee: u64, max_execution_fee: u64)
    ensures
        ({
            let fee = if execution_fee <= max_execution_fee {
                execution_fee
            } else {
                max_execution_fee
            };
            let transfers_in = params.kind == OrderKind::MarketIncrease || params.kind == OrderKind::MarketSwap
                || params.kind == OrderKind::LimitIncrease || params.kind == OrderKind::LimitSwap;
            &&& lamports < fee ==> cancel_plan_spec(params, lamports, execution_fee, max_execution_fee) == Err::<
                (u64, u64),
                ExchangeError,
            >(ExchangeError::NotEnoughExecutionFee)
            &&& lamports >= fee ==> cancel_plan_spec(params, lamports, execution_fee, max_execution_fee) == Ok::<
                (u64, u64),
                ExchangeError,
            >(
                (
                    if transfers_in {
                        params.initial_collateral_delta_amount
                    } else {
                        0
                    },
                    (lamports - fee) as u64,
                ),
            )
        }),
{
}

/// A new order records the market's token, and:
/// - a swap order takes its output token (and secondary output token) from the final output
///   account and its initial collateral token from the initial collateral account, which sends;
/// - any other order outputs exactly the requested output token, which is the long or the short
///   token of the market, and its secondary output is the token of its side; an increase order
///   sends from its initial collateral account, a decrease order sends nothing and receives in its
///   final and secondary output accounts.
pub proof fn lemma_order_tokens(
    meta: MarketMeta,
    params: OrderParams,
    output_token: Address,
    ui_fee_receiver: Address,
    initial_collateral: Option<TokenAccount>,
    final_output: Option<TokenAccount>,
    secondary_output: Option<TokenAccount>,
    position: PositionAccount,
    position_bump: u8,
)
    requires
        initialize_order_spec(
            meta,
            params,
            output_token,
            ui_fee_receiver,
            initial_collateral,
            final_output,
            secondary_output,
            position,
            position_bump,
        ) is Ok,
    ensures
        ({
            let o = initialize_order_spec(
                meta,
                params,
                output_token,
                ui_fee_receiver,
                initial_collateral,
                final_output,
                secondary_output,
                position,
                position_bump,
            ).unwrap();
            &&& o.tokens.market_token == meta.market_token_mint
            &&& o.receivers.ui_fee == ui_fee_receiver
            &&& o.tokens.final_output_token is None
            &&& params.kind == OrderKind::MarketSwap ==> {
                &&& final_output is Some && initial_collateral is Some
                &&& o.tokens.output_token == final_output.unwrap().mint
                &&& o.tokens.secondary_output_token == final_output.unwrap().mint
                &&& o.tokens.initial_collateral_token == initial_collateral.unwrap().mint
                &&& o.senders.initial_collateral_token_account == Some(initial_collateral.unwrap().key)
                &&& o.receivers.final_output_token_account == Some(final_output.unwrap().key)
            }
            &&& params.kind != OrderKind::MarketSwap ==> {
                &&& o.tokens.output_token == output_token
                &&& (output_token == meta.long_token_mint || output_token == meta.short_token_mint)
                &&& o.tokens.secondary_output_token == (if params.is_long {
                    meta.long_token_mint
                } else {
                    meta.short_token_mint
                })
                &&& initial_collateral is Some
                &&& o.tokens.initial_collateral_token == initial_collateral.unwrap().mint
            }
            &&& params.kind == OrderKind::MarketIncrease ==> o.senders.initial_collateral_token_account == Some(
                initial_collateral.unwrap().key,
            )
            &&& params.kind != OrderKind::MarketSwap && params.kind != OrderKind::MarketIncrease ==> {
                &&& o.senders.initial_collateral_token_account is None
                &&& final_output is Some && secondary_output is Some
                &&& o.receivers.final_output_token_account == Some(final_output.unwrap().key)
                &&& o.receivers.secondary_output_token_account == Some(secondary_output.unwrap().key)
                &&& !o.init_position
            }
        }),
{
}

} // verus!
