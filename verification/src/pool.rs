//! Pools of long and short tokens (or usd values, or factors).
use vstd::prelude::*;

use crate::error::Error;

verus! {

/// Pool kind.
#[derive(Debug, Clone, Copy, PartialEq, Eq, Structural, Hash, PartialOrd, Ord)]
#[non_exhaustive]
pub enum PoolKind {
    /// Primary liquidity pool.
    Primary,
    /// Swap impact.
    SwapImpact,
    /// Claimable fee.
    ClaimableFee,
    /// Open Interest for long.
    OpenInterestForLong,
    /// Open Interest for short.
    OpenInterestForShort,
    /// Open Interest in tokens for long.
    OpenInterestInTokensForLong,
    /// Open Interest in tokens for short.
    OpenInterestInTokensForShort,
    /// Position impact.
    PositionImpact,
    /// Borrowing factor.
    BorrowingFactor,
    /// Funding amount per size for long.
    FundingAmountPerSizeForLong,
    /// Funding amount per size for short.
    FundingAmountPerSizeForShort,
    /// Claimable funding amount per size for long.
    ClaimableFundingAmountPerSizeForLong,
    /// Claimable funding amount per size for short.
    ClaimableFundingAmountPerSizeForShort,
    /// Collateral sum for long.
    CollateralSumForLong,
    /// Collateral sum for short.
    CollateralSumForShort,
    /// Total borrowing.
    TotalBorrowing,
}

/// The number of a pool kind, in declaration order.
pub open spec fn pool_kind_index(kind: PoolKind) -> u8 {
    match kind {
        PoolKind::Primary => 0,
        PoolKind::SwapImpact => 1,
        PoolKind::ClaimableFee => 2,
        PoolKind::OpenInterestForLong => 3,
        PoolKind::OpenInterestForShort => 4,
        PoolKind::OpenInterestInTokensForLong => 5,
        PoolKind::OpenInterestInTokensForShort => 6,
        PoolKind::PositionImpact => 7,
        PoolKind::BorrowingFactor => 8,
        PoolKind::FundingAmountPerSizeForLong => 9,
        PoolKind::FundingAmountPerSizeForShort => 10,
        PoolKind::ClaimableFundingAmountPerSizeForLong => 11,
        PoolKind::ClaimableFundingAmountPerSizeForShort => 12,
        PoolKind::CollateralSumForLong => 13,
        PoolKind::CollateralSumForShort => 14,
        PoolKind::TotalBorrowing => 15,
    }
}

impl PoolKind {
    /// The primary pool is the default kind.
    pub fn default_kind() -> (r: PoolKind)
        ensures
            r == PoolKind::Primary,
    {
        PoolKind::Primary
    }

    /// The number of this kind.
    pub fn to_u8(self) -> (r: u8)
        ensures
            r == pool_kind_index(self),
    {
        match self {
            PoolKind::Primary => 0,
            PoolKind::SwapImpact => 1,
            PoolKind::ClaimableFee => 2,
            PoolKind::OpenInterestForLong => 3,
            PoolKind::OpenInterestForShort => 4,
            PoolKind::OpenInterestInTokensForLong => 5,
            PoolKind::OpenInterestInTokensForShort => 6,
            PoolKind::PositionImpact => 7,
            PoolKind::BorrowingFactor => 8,
            PoolKind::FundingAmountPerSizeForLong => 9,
            PoolKind::FundingAmountPerSizeForShort => 10,
            PoolKind::ClaimableFundingAmountPerSizeForLong => 11,
            PoolKind::ClaimableFundingAmountPerSizeForShort => 12,
            PoolKind::CollateralSumForLong => 13,
            PoolKind::CollateralSumForShort => 14,
            PoolKind::TotalBorrowing => 15,
        }
    }

    /// The kind with the given number, if any.
    pub fn try_from_u8(v: u8) -> (r: Option<PoolKind>)
        ensures
            r matches Some(k) ==> pool_kind_index(k) == v,
            r is Some <==> v < 16,
    {
        match v {
            0 => Some(PoolKind::Primary),
            1 => Some(PoolKind::SwapImpact),
            2 => Some(PoolKind::ClaimableFee),
            3 => Some(PoolKind::OpenInterestForLong),
            4 => Some(PoolKind::OpenInterestForShort),
            5 => Some(PoolKind::OpenInterestInTokensForLong),
            6 => Some(PoolKind::OpenInterestInTokensForShort),
            7 => Some(PoolKind::PositionImpact),
            8 => Some(PoolKind::BorrowingFactor),
            9 => Some(PoolKind::FundingAmountPerSizeForLong),
            10 => Some(PoolKind::FundingAmountPerSizeForShort),
            11 => Some(PoolKind::ClaimableFundingAmountPerSizeForLong),
            12 => Some(PoolKind::ClaimableFundingAmountPerSizeForShort),
            13 => Some(PoolKind::CollateralSumForLong),
            14 => Some(PoolKind::CollateralSumForShort),
            15 => Some(PoolKind::TotalBorrowing),
            _ => None,
        }
    }
}

/// A pool for a market.
///
/// A pure pool (whose long and short tokens are the same token) keeps both sides in
/// `long_token_amount`; each side then reads as half of it.
#[derive(Debug, Clone, Copy, PartialEq, Eq, Structural)]
pub struct Pool {
    /// Whether the pool only contains one kind of token, i.e. a pure pool.
    pub is_pure: bool,
    /// Long token amount (both sides for a pure pool).
    pub long_token_amount: u128,
    /// Short token amount (unused for a pure pool).
    pub short_token_amount: u128,
}

impl Pool {
    /// The long amount as read from the pool.
    pub open spec fn spec_long_amount(self) -> u128 {
        if self.is_pure {
            self.long_token_amount / 2
        } else {
            self.long_token_amount
        }
    }

    /// The short amount as read from the pool.
    pub open spec fn spec_short_amount(self) -> u128 {
        if self.is_pure {
            self.long_token_amount / 2
        } else {
            self.short_token_amount
        }
    }

    /// The pool after adding `delta` to the side given by `is_long`, if the amount stays in range.
    pub open spec fn spec_with_delta(self, is_long: bool, delta: int) -> Option<Pool> {
        if is_long || self.is_pure {
            if 0 <= self.long_token_amount + delta <= u128::MAX {
                Some(Pool { long_token_amount: (self.long_token_amount + delta) as u128, ..self })
            } else {
                None
            }
        } else {
            if 0 <= self.short_token_amount + delta <= u128::MAX {
                Some(Pool { short_token_amount: (self.short_token_amount + delta) as u128, ..self })
            } else {
                None
            }
        }
    }

    /// An empty pool.
    pub fn empty() -> (r: Self)
        ensures
            !r.is_pure,
            r.long_token_amount == 0,
            r.short_token_amount == 0,
    {
        Pool { is_pure: false, long_token_amount: 0, short_token_amount: 0 }
    }

    /// Set the pure flag.
    pub fn with_is_pure(self, is_pure: bool) -> (r: Self)
        ensures
            r == (Pool { is_pure, ..self }),
    {
        Pool { is_pure, ..self }
    }

    /// Get the long token amount.
    pub fn long_amount(&self) -> (r: u128)
        ensures
            r == self.spec_long_amount(),
    {
        if self.is_pure {
            self.long_token_amount / 2
        } else {
            self.long_token_amount
        }
    }

    /// Get the short token amount.
    pub fn short_amount(&self) -> (r: u128)
        ensures
            r == self.spec_short_amount(),
    {
        if self.is_pure {
            self.long_token_amount / 2
        } else {
            self.short_token_amount
        }
    }

    /// Apply delta to long amount.
    pub fn apply_delta_to_long_amount(&mut self, delta: &i128) -> (r: Result<(), Error>)
        ensures
            old(self).spec_with_delta(true, *delta as int) matches Some(p) ==> r is Ok && *final(self) == p,
            old(self).spec_with_delta(true, *delta as int) is None ==> r == Err::<(), Error>(
                Error::Computation,
            ) && *final(self) == *old(self),
    {
        match self.long_token_amount.checked_add_signed(*delta) {
            None => Err(Error::Computation),
            Some(v) => {
                self.long_token_amount = v;
                Ok(())
            },
        }
    }

    /// Apply delta to short amount (to the single amount of a pure pool).
    pub fn apply_delta_to_short_amount(&mut self, delta: &i128) -> (r: Result<(), Error>)
        ensures
            old(self).spec_with_delta(false, *delta as int) matches Some(p) ==> r is Ok && *final(self) == p,
            old(self).spec_with_delta(false, *delta as int) is None ==> r == Err::<(), Error>(
                Error::Computation,
            ) && *final(self) == *old(self),
    {
        if self.is_pure {
            match self.long_token_amount.checked_add_signed(*delta) {
                None => Err(Error::Computation),
                Some(v) => {
                    self.long_token_amount = v;
                    Ok(())
                },
            }
        } else {
            match self.short_token_amount.checked_add_signed(*delta) {
                None => Err(Error::Computation),
                Some(v) => {
                    self.short_token_amount = v;
                    Ok(())
                },
            }
        }
    }

    /// Apply delta to the side given by `is_long`.
    pub fn apply_delta_amount(&mut self, is_long: bool, delta: &i128) -> (r: Result<(), Error>)
        ensures
            old(self).spec_with_delta(is_long, *delta as int) matches Some(p) ==> r is Ok && *final(self)
                == p,
            old(self).spec_with_delta(is_long, *delta as int) is None ==> r == Err::<(), Error>(
                Error::Computation,
            ) && *final(self) == *old(self),
    {
        if is_long {
            self.apply_delta_to_long_amount(delta)
        } else {
            self.apply_delta_to_short_amount(delta)
        }
    }

    /// Get the long token value in USD: `long_amount * price`.
    pub fn long_token_usd_value(&self, price: u128) -> (r: Option<u128>)
        ensures
            r is Some <==> self.spec_long_amount() * price <= u128::MAX,
            r matches Some(v) ==> v == self.spec_long_amount() * price,
    {
        self.long_amount().checked_mul(price)
    }

    /// Get the short token value in USD: `short_amount * price`.
    pub fn short_token_usd_value(&self, price: u128) -> (r: Option<u128>)
        ensures
            r is Some <==> self.spec_short_amount() * price <= u128::MAX,
            r matches Some(v) ==> v == self.spec_short_amount() * price,
    {
        self.short_amount().checked_mul(price)
    }
}

/// Applying a delta to a side and then its opposite restores the pool.
pub proof fn lemma_delta_round_trip(pool: Pool, is_long: bool, delta: int)
    requires
        pool.spec_with_delta(is_long, delta) is Some,
    ensures
        pool.spec_with_delta(is_long, delta).unwrap().spec_with_delta(is_long, -delta) == Some(pool),
{
}

/// Deltas applied to the two sides of a pool that is not pure do not interfere: each side moves
/// by its own delta and the other side stays.
pub proof fn lemma_delta_sides_independent(pool: Pool, is_long: bool, delta: int)
    requires
        !pool.is_pure,
        pool.spec_with_delta(is_long, delta) is Some,
    ensures
        is_long ==> pool.spec_with_delta(is_long, delta).unwrap().spec_long_amount() == pool.spec_long_amount() + delta
            && pool.spec_with_delta(is_long, delta).unwrap().spec_short_amount() == pool.spec_short_amount(),
        !is_long ==> pool.spec_with_delta(is_long, delta).unwrap().spec_short_amount() == pool.spec_short_amount() + delta
            && pool.spec_with_delta(is_long, delta).unwrap().spec_long_amount() == pool.spec_long_amount(),
{
}


/// The pools of a market, one for each kind.
#[derive(Debug, Clone, Copy)]
pub struct Pools {
    pools: [Pool; 16],
}

/// The pool that a new market holds for a kind: empty, and pure when the market is pure, except
/// for the borrowing factor pool, which is never pure.
pub open spec fn initial_pool_spec(kind: PoolKind, is_pure: bool) -> Pool {
    Pool {
        is_pure: is_pure && kind != PoolKind::BorrowingFactor,
        long_token_amount: 0,
        short_token_amount: 0,
    }
}

impl Pools {
    /// The pool of the given kind.
    pub closed spec fn pool_of(self, kind: PoolKind) -> Pool {
        self.pools@[pool_kind_index(kind) as int]
    }

    /// Pools that are all empty and not pure.
    pub fn new() -> (r: Self)
        ensures
            forall|k: PoolKind| #[trigger] r.pool_of(k) == initial_pool_spec(k, false),
    {
        let p = Pool::empty();
        let r = Pools { pools: [p, p, p, p, p, p, p, p, p, p, p, p, p, p, p, p] };
        assert forall|k: PoolKind| #[trigger] r.pool_of(k) == initial_pool_spec(k, false) by {
            assert(pool_kind_index(k) < 16);
        }
        r
    }

    /// Reset every pool to an empty pool, pure when `is_pure` holds, except for the borrowing
    /// factor pool.
    pub fn init(&mut self, is_pure: bool)
        ensures
            forall|k: PoolKind| #[trigger] final(self).pool_of(k) == initial_pool_spec(k, is_pure),
    {
        let p = Pool::empty().with_is_pure(is_pure);
        let q = Pool::empty();
        self.pools = [p, p, p, p, p, p, p, p, q, p, p, p, p, p, p, p];
        assert forall|k: PoolKind| #[trigger] self.pool_of(k) == initial_pool_spec(k, is_pure) by {
            assert(pool_kind_index(k) < 16);
        }
    }

    /// Get the pool of the given kind.
    pub fn get(&self, kind: PoolKind) -> (r: Option<Pool>)
        ensures
            r == Some(self.pool_of(kind)),
    {
        let i = kind.to_u8();
        Some(self.pools[i as usize])
    }

    /// Replace the pool of the given kind.
    pub fn set(&mut self, kind: PoolKind, pool: Pool)
        ensures
            final(self).pool_of(kind) == pool,
            forall|k: PoolKind| k != kind ==> #[trigger] final(self).pool_of(k) == old(self).pool_of(k),
    {
        let i = kind.to_u8();
        self.pools[i as usize] = pool;
        proof {
            assert forall|k: PoolKind| k != kind implies #[trigger] self.pool_of(k) == old(self).pool_of(k) by {
                lemma_pool_kind_index_injective(k, kind);
            }
        }
    }
}

/// The kind with the given number.
pub open spec fn pool_kind_of_index(i: int) -> PoolKind {
    if i == 0 { PoolKind::Primary }
    else if i == 1 { PoolKind::SwapImpact }
    else if i == 2 { PoolKind::ClaimableFee }
    else if i == 3 { PoolKind::OpenInterestForLong }
    else if i == 4 { PoolKind::OpenInterestForShort }
    else if i == 5 { PoolKind::OpenInterestInTokensForLong }
    else if i == 6 { PoolKind::OpenInterestInTokensForShort }
    else if i == 7 { PoolKind::PositionImpact }
    else if i == 8 { PoolKind::BorrowingFactor }
    else if i == 9 { PoolKind::FundingAmountPerSizeForLong }
    else if i == 10 { PoolKind::FundingAmountPerSizeForShort }
    else if i == 11 { PoolKind::ClaimableFundingAmountPerSizeForLong }
    else if i == 12 { PoolKind::ClaimableFundingAmountPerSizeForShort }
    else if i == 13 { PoolKind::CollateralSumForLong }
    else if i == 14 { PoolKind::CollateralSumForShort }
    else { PoolKind::TotalBorrowing }
}

/// Two sets of pools that hold the same pool for every kind are equal.
pub proof fn lemma_pools_ext(a: Pools, b: Pools)
    requires
        forall|k: PoolKind| #[trigger] a.pool_of(k) == b.pool_of(k),
    ensures
        a == b,
{
    assert forall|i: int| 0 <= i < 16 implies a.pools@[i] == b.pools@[i] by {
        let k = pool_kind_of_index(i);
        assert(pool_kind_index(k) == i);
        assert(a.pool_of(k) == b.pool_of(k));
    }
    assert(a.pools@ =~= b.pools@);
    assert(a.pools =~= b.pools);
}

/// Different kinds have different numbers.
pub proof fn lemma_pool_kind_index_injective(a: PoolKind, b: PoolKind)
    ensures
        a != b ==> pool_kind_index(a) != pool_kind_index(b),
{
}

} // verus!
