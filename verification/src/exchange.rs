//! The checks of the exchange program when it creates orders and withdrawals: the tokens they
//! involve, where those tokens are transferred, and the execution fee they hold.
use vstd::prelude::*;

use crate::market::{insert_sorted, strictly_sorted, Address, MarketMeta};
use crate::order::{ExchangeError, OrderKind};

verus! {

/// The tokens an order involves before its swap path: the long and short tokens, the index token
/// when asked for, and the mints of the initial collateral and final output accounts.
pub open spec fn common_tokens_set(
    meta: MarketMeta,
    include_index_token: bool,
    initial_mint: Option<Address>,
    final_mint: Option<Address>,
) -> Set<Address> {
    let base = set![meta.long_token_mint, meta.short_token_mint];
    let with_index = if include_index_token {
        base.insert(meta.index_token_mint)
    } else {
        base
    };
    let with_initial = match initial_mint {
        Some(m) => with_index.insert(m),
        None => with_index,
    };
    match final_mint {
        Some(m) => with_initial.insert(m),
        None => with_initial,
    }
}

fn contains_sorted(v: &Vec<Address>, a: &Address) -> (r: bool)
    ensures
        r == v@.contains(*a),
{
    let mut i: usize = 0;
    while i < v.len()
        invariant
            i <= v.len(),
            forall|k: int| 0 <= k < i ==> v@[k] != *a,
        decreases v.len() - i,
    {
        if v[i] == *a {
            return true;
        }
        i += 1;
    }
    false
}

/// The tokens of an order before its swap path, in byte order; the mint of the secondary output
/// account and the output token must be among them.
pub fn common_tokens(
    meta: &MarketMeta,
    output_token: &Address,
    include_index_token: bool,
    initial_mint: Option<Address>,
    final_mint: Option<Address>,
    secondary_mint: Option<Address>,
) -> (r: Result<Vec<Address>, ExchangeError>)
    ensures
        ({
            let set = common_tokens_set(*meta, include_index_token, initial_mint, final_mint);
            match secondary_mint {
                Some(m) if !set.contains(m) => r == Err::<Vec<Address>, ExchangeError>(
                    ExchangeError::InvalidSecondaryOutputToken,
                ),
                _ => if !set.contains(*output_token) {
                    r == Err::<Vec<Address>, ExchangeError>(ExchangeError::InvalidOutputToken)
                } else {
                    (r matches Ok(v) && strictly_sorted(v@) && v@.to_set() == set)
                },
            }
        }),
{
    let mut tokens: Vec<Address> = Vec::new();
    proof {
        assert(tokens@.to_set() =~= Set::<Address>::empty());
    }
    insert_sorted(&mut tokens, meta.long_token_mint);
    insert_sorted(&mut tokens, meta.short_token_mint);
    if include_index_token {
        insert_sorted(&mut tokens, meta.index_token_mint);
    }
    if let Some(m) = initial_mint {
        insert_sorted(&mut tokens, m);
    }
    if let Some(m) = final_mint {
        insert_sorted(&mut tokens, m);
    }
    proof {
        assert(tokens@.to_set() =~= common_tokens_set(*meta, include_index_token, initial_mint, final_mint));
    }
    if let Some(m) = secondary_mint {
        if !contains_sorted(&tokens, &m) {
            return Err(ExchangeError::InvalidSecondaryOutputToken);
        }
    }
    if !contains_sorted(&tokens, output_token) {
        return Err(ExchangeError::InvalidOutputToken);
    }
    Ok(tokens)
}

/// Where the collateral of an order is transferred in.
#[derive(Debug, Clone, Copy, PartialEq, Eq, Structural)]
pub enum TransferInMarket {
    /// The first remaining account: the first market of the swap path.
    FirstRemainingAccount,
    /// The market of the order.
    OrderMarket,
}

/// The tokens of a new order, and the swap its path must make.
#[derive(Debug, Clone, PartialEq, Eq)]
pub struct OrderTokensPlan {
    /// The tokens before the swap path, in byte order.
    pub tokens: Vec<Address>,
    /// The token the swap path starts from.
    pub swap_in: Address,
    /// The token the swap path ends with.
    pub swap_out: Address,
    /// Where the collateral is transferred in, for orders that transfer in.
    pub transfer_in: Option<TransferInMarket>,
}

/// Work out the tokens of a new order and the swap its path must make: increase and swap orders
/// swap from their initial collateral token to the output token and transfer their collateral in;
/// decrease orders swap from the output token to their final output token.
pub fn create_order_tokens(
    kind: OrderKind,
    meta: &MarketMeta,
    output_token: &Address,
    initial_mint: Option<Address>,
    final_mint: Option<Address>,
    secondary_mint: Option<Address>,
    num_remaining_accounts: usize,
    swap_length: u8,
) -> (r: Result<OrderTokensPlan, ExchangeError>)
    ensures
        kind == OrderKind::Liquidation ==> r == Err::<OrderTokensPlan, ExchangeError>(
            ExchangeError::UnsupportedOrderKind,
        ),
        kind != OrderKind::Liquidation ==> {
            let set = common_tokens_set(*meta, true, initial_mint, final_mint);
            let is_increase_or_swap = kind == OrderKind::MarketIncrease || kind == OrderKind::MarketSwap || kind
                == OrderKind::LimitIncrease || kind == OrderKind::LimitSwap;
            if (secondary_mint matches Some(m) && !set.contains(m)) {
                r == Err::<OrderTokensPlan, ExchangeError>(ExchangeError::InvalidSecondaryOutputToken)
            } else if !set.contains(*output_token) {
                r == Err::<OrderTokensPlan, ExchangeError>(ExchangeError::InvalidOutputToken)
            } else if num_remaining_accounts < swap_length {
                r == Err::<OrderTokensPlan, ExchangeError>(ExchangeError::NotEnoughRemainingAccounts)
            } else if is_increase_or_swap {
                match initial_mint {
                    None => r == Err::<OrderTokensPlan, ExchangeError>(ExchangeError::MissingTokenAccountForOrder),
                    Some(m) => (r matches Ok(plan) && strictly_sorted(plan.tokens@) && plan.tokens@.to_set() == set
                        && plan.swap_in == m && plan.swap_out == *output_token && plan.transfer_in == Some(
                        if num_remaining_accounts > 0 {
                            TransferInMarket::FirstRemainingAccount
                        } else {
                            TransferInMarket::OrderMarket
                        },
                    )),
                }
            } else {
                match final_mint {
                    None => r == Err::<OrderTokensPlan, ExchangeError>(ExchangeError::MissingTokenAccountForOrder),
                    Some(m) => (r matches Ok(plan) && strictly_sorted(plan.tokens@) && plan.tokens@.to_set() == set
                        && plan.swap_in == *output_token && plan.swap_out == m && plan.transfer_in is None),
                }
            }
        },
{
    match kind {
        OrderKind::Liquidation => return Err(ExchangeError::UnsupportedOrderKind),
        _ => {},
    }
    let tokens = common_tokens(meta, output_token, true, initial_mint, final_mint, secondary_mint)?;
    if num_remaining_accounts < swap_length as usize {
        return Err(ExchangeError::NotEnoughRemainingAccounts);
    }
    match kind {
        OrderKind::MarketIncrease | OrderKind::MarketSwap | OrderKind::LimitIncrease | OrderKind::LimitSwap => {
            let initial = match initial_mint {
                Some(m) => m,
                None => return Err(ExchangeError::MissingTokenAccountForOrder),
            };
            let transfer_in = if num_remaining_accounts > 0 {
                TransferInMarket::FirstRemainingAccount
            } else {
                TransferInMarket::OrderMarket
            };
            Ok(
                OrderTokensPlan {
                    tokens,
                    swap_in: initial,
                    swap_out: *output_token,
                    transfer_in: Some(transfer_in),
                },
            )
        },
        _ => {
            let final_token = match final_mint {
                Some(m) => m,
                None => return Err(ExchangeError::MissingTokenAccountForOrder),
            };
            Ok(OrderTokensPlan { tokens, swap_in: *output_token, swap_out: final_token, transfer_in: None })
        },
    }
}

/// Check that the account of a new order or withdrawal holds at least `max_execution_fee`
/// lamports once the execution fee is paid in.
pub fn check_execution_fee(lamports: u64, execution_fee: u64, max_execution_fee: u64) -> (r: Result<
    (),
    ExchangeError,
>)
    requires
        lamports + execution_fee <= u64::MAX,
    ensures
        r is Ok <==> lamports + execution_fee >= max_execution_fee,
        r is Err ==> r == Err::<(), ExchangeError>(ExchangeError::NotEnoughExecutionFee),
{
    if lamports + execution_fee >= max_execution_fee {
        Ok(())
    } else {
        Err(ExchangeError::NotEnoughExecutionFee)
    }
}

/// The tokens of a new withdrawal before its swap paths: the mints of the final long and short
/// token receivers and the index, long and short tokens of the market.
pub fn create_withdrawal_tokens(
    market_token_amount: u64,
    meta: &MarketMeta,
    market_token_account_mint: &Address,
    final_long_mint: &Address,
    final_short_mint: &Address,
    num_remaining_accounts: usize,
    long_swap_length: u8,
    short_swap_length: u8,
) -> (r: Result<Vec<Address>, ExchangeError>)
    ensures
        market_token_amount == 0 ==> r == Err::<Vec<Address>, ExchangeError>(ExchangeError::EmptyWithdrawalAmount),
        market_token_amount != 0 && *market_token_account_mint != meta.market_token_mint ==> r == Err::<
            Vec<Address>,
            ExchangeError,
        >(ExchangeError::MismatchedMarketTokenMint),
        market_token_amount != 0 && *market_token_account_mint == meta.market_token_mint && num_remaining_accounts
            < long_swap_length + short_swap_length ==> r == Err::<Vec<Address>, ExchangeError>(
            ExchangeError::NotEnoughRemainingAccounts,
        ),
        market_token_amount != 0 && *market_token_account_mint == meta.market_token_mint && num_remaining_accounts
            >= long_swap_length + short_swap_length ==> (r matches Ok(v) && strictly_sorted(v@) && v@.to_set()
            == set![
                *final_long_mint,
                *final_short_mint,
                meta.index_token_mint,
                meta.long_token_mint,
                meta.short_token_mint,
            ]),
{
    if market_token_amount == 0 {
        return Err(ExchangeError::EmptyWithdrawalAmount);
    }
    let mut tokens: Vec<Address> = Vec::new();
    proof {
        assert(tokens@.to_set() =~= Set::<Address>::empty());
    }
    insert_sorted(&mut tokens, *final_long_mint);
    insert_sorted(&mut tokens, *final_short_mint);
    if *market_token_account_mint != meta.market_token_mint {
        return Err(ExchangeError::MismatchedMarketTokenMint);
    }
    insert_sorted(&mut tokens, meta.index_token_mint);
    insert_sorted(&mut tokens, meta.long_token_mint);
    insert_sorted(&mut tokens, meta.short_token_mint);
    if num_remaining_accounts < long_swap_length as usize + short_swap_length as usize {
        return Err(ExchangeError::NotEnoughRemainingAccounts);
    }
    proof {
        assert(tokens@.to_set() =~= set![
            *final_long_mint,
            *final_short_mint,
            meta.index_token_mint,
            meta.long_token_mint,
            meta.short_token_mint,
        ]);
    }
    Ok(tokens)
}

} // verus!
