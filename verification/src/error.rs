//! Errors of the market model.
use vstd::prelude::*;

use crate::pool::PoolKind;

verus! {

/// Error type.
#[derive(Debug, Clone, Copy, PartialEq, Eq, Structural)]
pub enum Error {
    /// Empty deposit.
    EmptyDeposit,
    /// Empty withdrawal.
    EmptyWithdrawal,
    /// Empty swap.
    EmptySwap,
    /// Invalid prices.
    InvalidPrices,
    /// Unknown computation error.
    Computation,
    /// Overflow.
    Overflow,
    /// Underflow.
    Underflow,
    /// Divided by zero.
    DividedByZero,
    /// Invalid pool value.
    InvalidPoolValue,
    /// Convert error.
    Convert,
    /// Build params error.
    BuildParams,
    /// Missing pool of the given kind.
    MissingPoolKind(PoolKind),
    /// Mint receiver not set.
    MintReceiverNotSet,
    /// Withdrawal vault not set.
    WithdrawalVaultNotSet,
    /// The pool amount exceeds the max pool amount.
    MaxPoolAmountExceeded,
    /// Invalid argument.
    InvalidArgument,
}

} // verus!
