//! Markets staged apart from their account: a perpetual market (its pools, clocks and funding
//! factor) and a liquidity market (its position impact pool and clock, and the market tokens to
//! mint and burn) are read out of the market, changed freely, and written back by a commit.
use vstd::prelude::*;

use crate::clock::{just_passed_in_seconds, just_passed_spec, saturating_sub_spec, Clocks};
use crate::error::Error;
use crate::market::{Market, MarketState};
use crate::pool::{lemma_pools_ext, Pool, PoolKind};

verus! {

/// The pools that a perpetual market stages.
#[derive(Debug, Clone, Copy, PartialEq, Eq, Structural)]
pub struct PerpPools {
    /// Swap impact pool.
    pub swap_impact: Pool,
    /// Position impact pool.
    pub position_impact: Pool,
    /// Open interest pool for long.
    pub open_interest_for_long: Pool,
    /// Open interest pool for short.
    pub open_interest_for_short: Pool,
    /// Open interest in tokens pool for long.
    pub open_interest_in_tokens_for_long: Pool,
    /// Open interest in tokens pool for short.
    pub open_interest_in_tokens_for_short: Pool,
    /// Borrowing factor pool.
    pub borrowing_factor: Pool,
    /// Funding amount per size pool for long.
    pub funding_amount_per_size_for_long: Pool,
    /// Funding amount per size pool for short.
    pub funding_amount_per_size_for_short: Pool,
    /// Claimable funding amount per size pool for long.
    pub claimable_funding_amount_per_size_for_long: Pool,
    /// Claimable funding amount per size pool for short.
    pub claimable_funding_amount_per_size_for_short: Pool,
}

/// The clocks that a perpetual market stages.
#[derive(Debug, Clone, Copy, PartialEq, Eq, Structural)]
pub struct PerpClocks {
    /// Position impact distribution clock.
    pub position_impact_distribution_clock: i64,
    /// Borrowing clock.
    pub borrowing_clock: i64,
    /// Funding clock.
    pub funding_clock: i64,
}

/// A perpetual market staged from a market account.
#[derive(Debug, Clone, Copy, PartialEq, Eq, Structural)]
pub struct RevertiblePerpMarket {
    /// Staged clocks.
    pub clocks: PerpClocks,
    /// Staged pools.
    pub pools: PerpPools,
    /// Staged funding factor per second.
    pub funding_factor_per_second: i128,
}

/// The kinds of the pools that a perpetual market stages.
pub open spec fn perp_pool_kind(kind: PoolKind) -> bool {
    match kind {
        PoolKind::SwapImpact | PoolKind::PositionImpact | PoolKind::OpenInterestForLong
        | PoolKind::OpenInterestForShort | PoolKind::OpenInterestInTokensForLong
        | PoolKind::OpenInterestInTokensForShort | PoolKind::BorrowingFactor
        | PoolKind::FundingAmountPerSizeForLong | PoolKind::FundingAmountPerSizeForShort
        | PoolKind::ClaimableFundingAmountPerSizeForLong
        | PoolKind::ClaimableFundingAmountPerSizeForShort => true,
        _ => false,
    }
}

/// The open interest pool kind of a side.
pub open spec fn open_interest_kind(is_long: bool) -> PoolKind {
    if is_long {
        PoolKind::OpenInterestForLong
    } else {
        PoolKind::OpenInterestForShort
    }
}

/// The open interest in tokens pool kind of a side.
pub open spec fn open_interest_in_tokens_kind(is_long: bool) -> PoolKind {
    if is_long {
        PoolKind::OpenInterestInTokensForLong
    } else {
        PoolKind::OpenInterestInTokensForShort
    }
}

/// The funding amount per size pool kind of a side.
pub open spec fn funding_amount_per_size_kind(is_long: bool) -> PoolKind {
    if is_long {
        PoolKind::FundingAmountPerSizeForLong
    } else {
        PoolKind::FundingAmountPerSizeForShort
    }
}

/// The claimable funding amount per size pool kind of a side.
pub open spec fn claimable_funding_amount_per_size_kind(is_long: bool) -> PoolKind {
    if is_long {
        PoolKind::ClaimableFundingAmountPerSizeForLong
    } else {
        PoolKind::ClaimableFundingAmountPerSizeForShort
    }
}

impl PerpPools {
    /// The staged pool of a kind that a perpetual market stages.
    pub open spec fn staged(self, kind: PoolKind) -> Pool
        recommends
            perp_pool_kind(kind),
    {
        match kind {
            PoolKind::SwapImpact => self.swap_impact,
            PoolKind::PositionImpact => self.position_impact,
            PoolKind::OpenInterestForLong => self.open_interest_for_long,
            PoolKind::OpenInterestForShort => self.open_interest_for_short,
            PoolKind::OpenInterestInTokensForLong => self.open_interest_in_tokens_for_long,
            PoolKind::OpenInterestInTokensForShort => self.open_interest_in_tokens_for_short,
            PoolKind::BorrowingFactor => self.borrowing_factor,
            PoolKind::FundingAmountPerSizeForLong => self.funding_amount_per_size_for_long,
            PoolKind::FundingAmountPerSizeForShort => self.funding_amount_per_size_for_short,
            PoolKind::ClaimableFundingAmountPerSizeForLong => self.claimable_funding_amount_per_size_for_long,
            _ => self.claimable_funding_amount_per_size_for_short,
        }
    }

    /// These pools with the staged pool of `kind` replaced by `pool`.
    pub open spec fn with_staged(self, kind: PoolKind, pool: Pool) -> PerpPools
        recommends
            perp_pool_kind(kind),
    {
        match kind {
            PoolKind::SwapImpact => PerpPools { swap_impact: pool, ..self },
            PoolKind::PositionImpact => PerpPools { position_impact: pool, ..self },
            PoolKind::OpenInterestForLong => PerpPools { open_interest_for_long: pool, ..self },
            PoolKind::OpenInterestForShort => PerpPools { open_interest_for_short: pool, ..self },
            PoolKind::OpenInterestInTokensForLong => PerpPools { open_interest_in_tokens_for_long: pool, ..self },
            PoolKind::OpenInterestInTokensForShort => PerpPools { open_interest_in_tokens_for_short: pool, ..self },
            PoolKind::BorrowingFactor => PerpPools { borrowing_factor: pool, ..self },
            PoolKind::FundingAmountPerSizeForLong => PerpPools { funding_amount_per_size_for_long: pool, ..self },
            PoolKind::FundingAmountPerSizeForShort => PerpPools { funding_amount_per_size_for_short: pool, ..self },
            PoolKind::ClaimableFundingAmountPerSizeForLong => PerpPools {
                claimable_funding_amount_per_size_for_long: pool,
                ..self
            },
            _ => PerpPools { claimable_funding_amount_per_size_for_short: pool, ..self },
        }
    }
}

/// The perpetual market staged from `market`.
pub open spec fn staged_from_spec(market: Market) -> RevertiblePerpMarket {
    RevertiblePerpMarket {
        clocks: PerpClocks {
            position_impact_distribution_clock: market.clocks.price_impact_distribution,
            borrowing_clock: market.clocks.borrowing,
            funding_clock: market.clocks.funding,
        },
        pools: PerpPools {
            swap_impact: market.pools.pool_of(PoolKind::SwapImpact),
            position_impact: market.pools.pool_of(PoolKind::PositionImpact),
            open_interest_for_long: market.pools.pool_of(PoolKind::OpenInterestForLong),
            open_interest_for_short: market.pools.pool_of(PoolKind::OpenInterestForShort),
            open_interest_in_tokens_for_long: market.pools.pool_of(PoolKind::OpenInterestInTokensForLong),
            open_interest_in_tokens_for_short: market.pools.pool_of(PoolKind::OpenInterestInTokensForShort),
            borrowing_factor: market.pools.pool_of(PoolKind::BorrowingFactor),
            funding_amount_per_size_for_long: market.pools.pool_of(PoolKind::FundingAmountPerSizeForLong),
            funding_amount_per_size_for_short: market.pools.pool_of(PoolKind::FundingAmountPerSizeForShort),
            claimable_funding_amount_per_size_for_long: market.pools.pool_of(
                PoolKind::ClaimableFundingAmountPerSizeForLong,
            ),
            claimable_funding_amount_per_size_for_short: market.pools.pool_of(
                PoolKind::ClaimableFundingAmountPerSizeForShort,
            ),
        },
        funding_factor_per_second: market.state.funding_factor_per_second,
    }
}

/// `after` is `before` with the staged pools, clocks and funding factor of `staged` written into
/// it, and nothing else changed.
pub open spec fn committed(staged: RevertiblePerpMarket, before: Market, after: Market) -> bool {
    &&& after.flag == before.flag
    &&& after.meta == before.meta
    &&& after.store == before.store
    &&& forall|k: PoolKind|
        perp_pool_kind(k) ==> #[trigger] after.pools.pool_of(k) == staged.pools.staged(k)
    &&& forall|k: PoolKind|
        !perp_pool_kind(k) ==> #[trigger] after.pools.pool_of(k) == before.pools.pool_of(k)
    &&& after.clocks == (Clocks {
        price_impact_distribution: staged.clocks.position_impact_distribution_clock,
        borrowing: staged.clocks.borrowing_clock,
        funding: staged.clocks.funding_clock,
        ..before.clocks
    })
    &&& after.state == (MarketState {
        funding_factor_per_second: staged.funding_factor_per_second,
        ..before.state
    })
}

impl RevertiblePerpMarket {
    /// Stage the pools, clocks and funding factor of a market.
    pub fn from_market(market: &Market) -> (r: Self)
        ensures
            r == staged_from_spec(*market),
    {
        let pools = &market.pools;
        RevertiblePerpMarket {
            clocks: PerpClocks {
                position_impact_distribution_clock: market.clocks.price_impact_distribution,
                borrowing_clock: market.clocks.borrowing,
                funding_clock: market.clocks.funding,
            },
            pools: PerpPools {
                swap_impact: pools.get(PoolKind::SwapImpact).unwrap(),
                position_impact: pools.get(PoolKind::PositionImpact).unwrap(),
                open_interest_for_long: pools.get(PoolKind::OpenInterestForLong).unwrap(),
                open_interest_for_short: pools.get(PoolKind::OpenInterestForShort).unwrap(),
                open_interest_in_tokens_for_long: pools.get(PoolKind::OpenInterestInTokensForLong).unwrap(),
                open_interest_in_tokens_for_short: pools.get(PoolKind::OpenInterestInTokensForShort).unwrap(),
                borrowing_factor: pools.get(PoolKind::BorrowingFactor).unwrap(),
                funding_amount_per_size_for_long: pools.get(PoolKind::FundingAmountPerSizeForLong).unwrap(),
                funding_amount_per_size_for_short: pools.get(PoolKind::FundingAmountPerSizeForShort).unwrap(),
                claimable_funding_amount_per_size_for_long: pools.get(
                    PoolKind::ClaimableFundingAmountPerSizeForLong,
                ).unwrap(),
                claimable_funding_amount_per_size_for_short: pools.get(
                    PoolKind::ClaimableFundingAmountPerSizeForShort,
                ).unwrap(),
            },
            funding_factor_per_second: market.state.funding_factor_per_second,
        }
    }

    /// Write the staged pools, clocks and funding factor back into the market.
    pub fn commit(self, market: &mut Market)
        ensures
            committed(self, *old(market), *final(market)),
    {
        let p = self.pools;
        market.pools.set(PoolKind::SwapImpact, p.swap_impact);
        market.pools.set(PoolKind::PositionImpact, p.position_impact);
        market.pools.set(PoolKind::OpenInterestForLong, p.open_interest_for_long);
        market.pools.set(PoolKind::OpenInterestForShort, p.open_interest_for_short);
        market.pools.set(PoolKind::OpenInterestInTokensForLong, p.open_interest_in_tokens_for_long);
        market.pools.set(PoolKind::OpenInterestInTokensForShort, p.open_interest_in_tokens_for_short);
        market.pools.set(PoolKind::BorrowingFactor, p.borrowing_factor);
        market.pools.set(PoolKind::FundingAmountPerSizeForLong, p.funding_amount_per_size_for_long);
        market.pools.set(PoolKind::FundingAmountPerSizeForShort, p.funding_amount_per_size_for_short);
        market.pools.set(
            PoolKind::ClaimableFundingAmountPerSizeForLong,
            p.claimable_funding_amount_per_size_for_long,
        );
        market.pools.set(
            PoolKind::ClaimableFundingAmountPerSizeForShort,
            p.claimable_funding_amount_per_size_for_short,
        );
        market.clocks.price_impact_distribution = self.clocks.position_impact_distribution_clock;
        market.clocks.borrowing = self.clocks.borrowing_clock;
        market.clocks.funding = self.clocks.funding_clock;
        market.state.funding_factor_per_second = self.funding_factor_per_second;
    }
}

impl RevertiblePerpMarket {
    /// Swap impact pool.
    pub fn swap_impact_pool(&self) -> (r: &Pool)
        ensures
            *r == self.pools.swap_impact,
    {
        &self.pools.swap_impact
    }

    /// Swap impact pool, to change.
    pub fn swap_impact_pool_mut(&mut self) -> (r: &mut Pool)
        ensures
            *r == old(self).pools.swap_impact,
            *final(self) == (RevertiblePerpMarket {
                pools: old(self).pools.with_staged(PoolKind::SwapImpact, *final(r)),
                ..*old(self)
            }),
    {
        &mut self.pools.swap_impact
    }

    /// Position impact pool.
    pub fn position_impact_pool(&self) -> (r: &Pool)
        ensures
            *r == self.pools.position_impact,
    {
        &self.pools.position_impact
    }

    /// Position impact pool, to change.
    pub fn position_impact_pool_mut(&mut self) -> (r: &mut Pool)
        ensures
            *r == old(self).pools.position_impact,
            *final(self) == (RevertiblePerpMarket {
                pools: old(self).pools.with_staged(PoolKind::PositionImpact, *final(r)),
                ..*old(self)
            }),
    {
        &mut self.pools.position_impact
    }

    /// Borrowing factor pool.
    pub fn borrowing_factor_pool(&self) -> (r: &Pool)
        ensures
            *r == self.pools.borrowing_factor,
    {
        &self.pools.borrowing_factor
    }

    /// Borrowing factor pool, to change.
    pub fn borrowing_factor_pool_mut(&mut self) -> (r: &mut Pool)
        ensures
            *r == old(self).pools.borrowing_factor,
            *final(self) == (RevertiblePerpMarket {
                pools: old(self).pools.with_staged(PoolKind::BorrowingFactor, *final(r)),
                ..*old(self)
            }),
    {
        &mut self.pools.borrowing_factor
    }

    /// Open interest pool of a side.
    pub fn open_interest_pool(&self, is_long: bool) -> (r: &Pool)
        ensures
            *r == self.pools.staged(open_interest_kind(is_long)),
    {
        if is_long {
            &self.pools.open_interest_for_long
        } else {
            &self.pools.open_interest_for_short
        }
    }

    /// Open interest pool of a side, to change.
    pub fn open_interest_pool_mut(&mut self, is_long: bool) -> (r: &mut Pool)
        ensures
            *r == old(self).pools.staged(open_interest_kind(is_long)),
            *final(self) == (RevertiblePerpMarket {
                pools: old(self).pools.with_staged(open_interest_kind(is_long), *final(r)),
                ..*old(self)
            }),
    {
        if is_long {
            &mut self.pools.open_interest_for_long
        } else {
            &mut self.pools.open_interest_for_short
        }
    }

    /// Open interest in tokens pool of a side.
    pub fn open_interest_in_tokens_pool(&self, is_long: bool) -> (r: &Pool)
        ensures
            *r == self.pools.staged(open_interest_in_tokens_kind(is_long)),
    {
        if is_long {
            &self.pools.open_interest_in_tokens_for_long
        } else {
            &self.pools.open_interest_in_tokens_for_short
        }
    }

    /// Open interest in tokens pool of a side, to change.
    pub fn open_interest_in_tokens_pool_mut(&mut self, is_long: bool) -> (r: &mut Pool)
        ensures
            *r == old(self).pools.staged(open_interest_in_tokens_kind(is_long)),
            *final(self) == (RevertiblePerpMarket {
                pools: old(self).pools.with_staged(open_interest_in_tokens_kind(is_long), *final(r)),
                ..*old(self)
            }),
    {
        if is_long {
            &mut self.pools.open_interest_in_tokens_for_long
        } else {
            &mut self.pools.open_interest_in_tokens_for_short
        }
    }

    /// Funding amount per size pool of a side.
    pub fn funding_amount_per_size_pool(&self, is_long: bool) -> (r: &Pool)
        ensures
            *r == self.pools.staged(funding_amount_per_size_kind(is_long)),
    {
        if is_long {
            &self.pools.funding_amount_per_size_for_long
        } else {
            &self.pools.funding_amount_per_size_for_short
        }
    }

    /// Funding amount per size pool of a side, to change.
    pub fn funding_amount_per_size_pool_mut(&mut self, is_long: bool) -> (r: &mut Pool)
        ensures
            *r == old(self).pools.staged(funding_amount_per_size_kind(is_long)),
            *final(self) == (RevertiblePerpMarket {
                pools: old(self).pools.with_staged(funding_amount_per_size_kind(is_long), *final(r)),
                ..*old(self)
            }),
    {
        if is_long {
            &mut self.pools.funding_amount_per_size_for_long
        } else {
            &mut self.pools.funding_amount_per_size_for_short
        }
    }

    /// Claimable funding amount per size pool of a side.
    pub fn claimable_funding_amount_per_size_pool(&self, is_long: bool) -> (r: &Pool)
        ensures
            *r == self.pools.staged(claimable_funding_amount_per_size_kind(is_long)),
    {
        if is_long {
            &self.pools.claimable_funding_amount_per_size_for_long
        } else {
            &self.pools.claimable_funding_amount_per_size_for_short
        }
    }

    /// Claimable funding amount per size pool of a side, to change.
    pub fn claimable_funding_amount_per_size_pool_mut(&mut self, is_long: bool) -> (r: &mut Pool)
        ensures
            *r == old(self).pools.staged(claimable_funding_amount_per_size_kind(is_long)),
            *final(self) == (RevertiblePerpMarket {
                pools: old(self).pools.with_staged(claimable_funding_amount_per_size_kind(is_long), *final(r)),
                ..*old(self)
            }),
    {
        if is_long {
            &mut self.pools.claimable_funding_amount_per_size_for_long
        } else {
            &mut self.pools.claimable_funding_amount_per_size_for_short
        }
    }

    /// Funding factor per second.
    pub fn funding_factor_per_second(&self) -> (r: i128)
        ensures
            r == self.funding_factor_per_second,
    {
        self.funding_factor_per_second
    }

    /// Set the funding factor per second.
    pub fn set_funding_factor_per_second(&mut self, value: i128)
        ensures
            *final(self) == (RevertiblePerpMarket { funding_factor_per_second: value, ..*old(self) }),
    {
        self.funding_factor_per_second = value;
    }

    /// Seconds passed on the position impact distribution clock; the clock moves to `current`
    /// when time passed.
    pub fn just_passed_in_seconds_for_position_impact_distribution(&mut self, current: i64) -> (r: u64)
        ensures
            r == just_passed_spec(old(self).clocks.position_impact_distribution_clock, current),
            final(self).clocks.position_impact_distribution_clock == if saturating_sub_spec(
                current,
                old(self).clocks.position_impact_distribution_clock,
            ) > 0 {
                current
            } else {
                old(self).clocks.position_impact_distribution_clock
            },
            final(self).clocks.borrowing_clock == old(self).clocks.borrowing_clock,
            final(self).clocks.funding_clock == old(self).clocks.funding_clock,
            final(self).pools == old(self).pools,
            final(self).funding_factor_per_second == old(self).funding_factor_per_second,
    {
        just_passed_in_seconds(&mut self.clocks.position_impact_distribution_clock, current)
    }

    /// Seconds passed on the borrowing clock; the clock moves to `current` when time passed.
    pub fn just_passed_in_seconds_for_borrowing(&mut self, current: i64) -> (r: u64)
        ensures
            r == just_passed_spec(old(self).clocks.borrowing_clock, current),
            final(self).clocks.borrowing_clock == if saturating_sub_spec(current, old(self).clocks.borrowing_clock)
                > 0 {
                current
            } else {
                old(self).clocks.borrowing_clock
            },
            final(self).clocks.position_impact_distribution_clock == old(
                self,
            ).clocks.position_impact_distribution_clock,
            final(self).clocks.funding_clock == old(self).clocks.funding_clock,
            final(self).pools == old(self).pools,
            final(self).funding_factor_per_second == old(self).funding_factor_per_second,
    {
        just_passed_in_seconds(&mut self.clocks.borrowing_clock, current)
    }

    /// Seconds passed on the funding clock; the clock moves to `current` when time passed.
    pub fn just_passed_in_seconds_for_funding(&mut self, current: i64) -> (r: u64)
        ensures
            r == just_passed_spec(old(self).clocks.funding_clock, current),
            final(self).clocks.funding_clock == if saturating_sub_spec(current, old(self).clocks.funding_clock)
                > 0 {
                current
            } else {
                old(self).clocks.funding_clock
            },
            final(self).clocks.position_impact_distribution_clock == old(
                self,
            ).clocks.position_impact_distribution_clock,
            final(self).clocks.borrowing_clock == old(self).clocks.borrowing_clock,
            final(self).pools == old(self).pools,
            final(self).funding_factor_per_second == old(self).funding_factor_per_second,
    {
        just_passed_in_seconds(&mut self.clocks.funding_clock, current)
    }
}

/// Committing a perpetual market that was staged from a market and left unchanged leaves the
/// market as it was.
pub proof fn lemma_commit_unchanged(market: Market, after: Market)
    requires
        committed(staged_from_spec(market), market, after),
    ensures
        after == market,
{
    assert forall|k: PoolKind| #[trigger] after.pools.pool_of(k) == market.pools.pool_of(k) by {
        if perp_pool_kind(k) {
            assert(after.pools.pool_of(k) == staged_from_spec(market).pools.staged(k));
        }
    }
    lemma_pools_ext(after.pools, market.pools);
}

/// A commit writes each staged pool into the pool of its kind (the long and short pools of a pair
/// into the pools for long and for short), and leaves the primary and claimable fee pools alone.
pub proof fn lemma_commit_writes_pools(staged: RevertiblePerpMarket, before: Market, after: Market)
    requires
        committed(staged, before, after),
    ensures
        after.pools.pool_of(PoolKind::SwapImpact) == staged.pools.swap_impact,
        after.pools.pool_of(PoolKind::PositionImpact) == staged.pools.position_impact,
        after.pools.pool_of(PoolKind::BorrowingFactor) == staged.pools.borrowing_factor,
        after.pools.pool_of(PoolKind::OpenInterestForLong) == staged.pools.open_interest_for_long,
        after.pools.pool_of(PoolKind::OpenInterestForShort) == staged.pools.open_interest_for_short,
        after.pools.pool_of(PoolKind::OpenInterestInTokensForLong) == staged.pools.open_interest_in_tokens_for_long,
        after.pools.pool_of(PoolKind::OpenInterestInTokensForShort) == staged.pools.open_interest_in_tokens_for_short,
        after.pools.pool_of(PoolKind::FundingAmountPerSizeForLong) == staged.pools.funding_amount_per_size_for_long,
        after.pools.pool_of(PoolKind::FundingAmountPerSizeForShort) == staged.pools.funding_amount_per_size_for_short,
        after.pools.pool_of(PoolKind::ClaimableFundingAmountPerSizeForLong)
            == staged.pools.claimable_funding_amount_per_size_for_long,
        after.pools.pool_of(PoolKind::ClaimableFundingAmountPerSizeForShort)
            == staged.pools.claimable_funding_amount_per_size_for_short,
        after.pools.pool_of(PoolKind::Primary) == before.pools.pool_of(PoolKind::Primary),
        after.pools.pool_of(PoolKind::ClaimableFee) == before.pools.pool_of(PoolKind::ClaimableFee),
{
    lemma_commit_then_stage(staged, before, after);
    assert(!perp_pool_kind(PoolKind::Primary));
    assert(!perp_pool_kind(PoolKind::ClaimableFee));
    assert(after.pools.pool_of(PoolKind::Primary) == before.pools.pool_of(PoolKind::Primary));
    assert(after.pools.pool_of(PoolKind::ClaimableFee) == before.pools.pool_of(PoolKind::ClaimableFee));
}

/// Staging a market right after a commit gives back what was committed.
pub proof fn lemma_commit_then_stage(staged: RevertiblePerpMarket, before: Market, after: Market)
    requires
        committed(staged, before, after),
    ensures
        staged_from_spec(after) == staged,
{
    assert(after.pools.pool_of(PoolKind::SwapImpact) == staged.pools.staged(PoolKind::SwapImpact));
    assert(after.pools.pool_of(PoolKind::PositionImpact) == staged.pools.staged(PoolKind::PositionImpact));
    assert(after.pools.pool_of(PoolKind::OpenInterestForLong) == staged.pools.staged(PoolKind::OpenInterestForLong));
    assert(after.pools.pool_of(PoolKind::OpenInterestForShort) == staged.pools.staged(PoolKind::OpenInterestForShort));
    assert(after.pools.pool_of(PoolKind::OpenInterestInTokensForLong) == staged.pools.staged(
        PoolKind::OpenInterestInTokensForLong,
    ));
    assert(after.pools.pool_of(PoolKind::OpenInterestInTokensForShort) == staged.pools.staged(
        PoolKind::OpenInterestInTokensForShort,
    ));
    assert(after.pools.pool_of(PoolKind::BorrowingFactor) == staged.pools.staged(PoolKind::BorrowingFactor));
    assert(after.pools.pool_of(PoolKind::FundingAmountPerSizeForLong) == staged.pools.staged(
        PoolKind::FundingAmountPerSizeForLong,
    ));
    assert(after.pools.pool_of(PoolKind::FundingAmountPerSizeForShort) == staged.pools.staged(
        PoolKind::FundingAmountPerSizeForShort,
    ));
    assert(after.pools.pool_of(PoolKind::ClaimableFundingAmountPerSizeForLong) == staged.pools.staged(
        PoolKind::ClaimableFundingAmountPerSizeForLong,
    ));
    assert(after.pools.pool_of(PoolKind::ClaimableFundingAmountPerSizeForShort) == staged.pools.staged(
        PoolKind::ClaimableFundingAmountPerSizeForShort,
    ));
}

/// A liquidity market staged from a market account: its position impact pool and clock, and the
/// market tokens to mint and to burn, which are only accounted for until the commit.
#[derive(Debug, Clone, Copy, PartialEq, Eq, Structural)]
pub struct AsLiquidityMarket {
    /// The supply of the market token.
    pub supply: u64,
    /// Whether minting is enabled (a receiver of the minted tokens is set).
    pub mint_enabled: bool,
    /// Staged position impact pool.
    pub position_impact: Pool,
    /// Staged position impact distribution clock.
    pub position_impact_distribution_clock: i64,
    /// Market tokens to mint at the commit.
    pub to_mint: u64,
    /// Market tokens to burn at the commit.
    pub to_burn: u64,
}

/// What a liquidity market asks for at its commit: the amount to mint to the receiver and the
/// amount to burn from the vault, when not zero.
#[derive(Debug, Clone, Copy, PartialEq, Eq, Structural)]
pub struct LiquidityCommit {
    /// Amount to mint to the receiver.
    pub mint: Option<u64>,
    /// Amount to burn from the vault.
    pub burn: Option<u64>,
}

/// The pending amounts keep the supply in range: what is minted fits on top of the supply, and
/// what is burned comes out of it.
pub open spec fn liquidity_wf(m: AsLiquidityMarket) -> bool {
    &&& m.supply + m.to_mint <= u64::MAX
    &&& m.to_burn <= m.supply
}

/// The pending mint after minting `amount` more, or `None` on overflow.
pub open spec fn mint_spec(m: AsLiquidityMarket, amount: u128) -> Option<u64> {
    if amount > u64::MAX || m.to_mint + amount > u64::MAX || m.supply + m.to_mint + amount > u64::MAX {
        None
    } else {
        Some((m.to_mint + amount) as u64)
    }
}

/// The pending burn after burning `amount` more, or an error when it would not fit.
pub open spec fn burn_spec(m: AsLiquidityMarket, amount: u128) -> Result<u64, Error> {
    if amount > u64::MAX || m.to_burn + amount > u64::MAX {
        Err(Error::Overflow)
    } else if m.to_burn + amount > m.supply {
        Err(Error::Underflow)
    } else {
        Ok((m.to_burn + amount) as u64)
    }
}

impl AsLiquidityMarket {
    /// Stage the position impact pool and clock of a market whose token has the given supply.
    pub fn new(market: &Market, supply: u64) -> (r: Self)
        ensures
            r == (AsLiquidityMarket {
                supply,
                mint_enabled: false,
                position_impact: market.pools.pool_of(PoolKind::PositionImpact),
                position_impact_distribution_clock: market.clocks.price_impact_distribution,
                to_mint: 0,
                to_burn: 0,
            }),
            liquidity_wf(r),
    {
        AsLiquidityMarket {
            supply,
            mint_enabled: false,
            position_impact: market.pools.get(PoolKind::PositionImpact).unwrap(),
            position_impact_distribution_clock: market.clocks.price_impact_distribution,
            to_mint: 0,
            to_burn: 0,
        }
    }

    /// Enable minting.
    pub fn enable_mint(self) -> (r: Self)
        ensures
            r == (AsLiquidityMarket { mint_enabled: true, ..self }),
    {
        AsLiquidityMarket { mint_enabled: true, ..self }
    }

    /// The total supply of the market token.
    pub fn total_supply(&self) -> (r: u128)
        ensures
            r == self.supply,
    {
        self.supply as u128
    }

    /// Mint `amount` market tokens at the commit.
    pub fn mint(&mut self, amount: &u128) -> (r: Result<(), Error>)
        requires
            liquidity_wf(*old(self)),
        ensures
            liquidity_wf(*final(self)),
            match mint_spec(*old(self), *amount) {
                Some(to_mint) => r is Ok && *final(self) == (AsLiquidityMarket { to_mint, ..*old(self) }),
                None => r == Err::<(), Error>(Error::Overflow) && *final(self) == *old(self),
            },
    {
        if *amount > u64::MAX as u128 {
            return Err(Error::Overflow);
        }
        let new_mint = *amount as u64;
        let to_mint = match self.to_mint.checked_add(new_mint) {
            Some(v) => v,
            None => return Err(Error::Overflow),
        };
        if self.supply.checked_add(to_mint).is_none() {
            return Err(Error::Overflow);
        }
        self.to_mint = to_mint;
        Ok(())
    }

    /// Burn `amount` market tokens at the commit.
    pub fn burn(&mut self, amount: &u128) -> (r: Result<(), Error>)
        requires
            liquidity_wf(*old(self)),
        ensures
            liquidity_wf(*final(self)),
            match burn_spec(*old(self), *amount) {
                Ok(to_burn) => r is Ok && *final(self) == (AsLiquidityMarket { to_burn, ..*old(self) }),
                Err(e) => r == Err::<(), Error>(e) && *final(self) == *old(self),
            },
    {
        if *amount > u64::MAX as u128 {
            return Err(Error::Overflow);
        }
        let new_burn = *amount as u64;
        let to_burn = match self.to_burn.checked_add(new_burn) {
            Some(v) => v,
            None => return Err(Error::Overflow),
        };
        if self.supply.checked_sub(to_burn).is_none() {
            return Err(Error::Underflow);
        }
        self.to_burn = to_burn;
        Ok(())
    }

    /// Position impact pool.
    pub fn position_impact_pool(&self) -> (r: &Pool)
        ensures
            *r == self.position_impact,
    {
        &self.position_impact
    }

    /// Position impact pool, to change.
    pub fn position_impact_pool_mut(&mut self) -> (r: &mut Pool)
        ensures
            *r == old(self).position_impact,
            *final(self) == (AsLiquidityMarket { position_impact: *final(r), ..*old(self) }),
    {
        &mut self.position_impact
    }

    /// Seconds passed on the position impact distribution clock; the clock moves to `current`
    /// when time passed.
    pub fn just_passed_in_seconds_for_position_impact_distribution(&mut self, current: i64) -> (r: u64)
        ensures
            r == just_passed_spec(old(self).position_impact_distribution_clock, current),
            *final(self) == (AsLiquidityMarket {
                position_impact_distribution_clock: if saturating_sub_spec(
                    current,
                    old(self).position_impact_distribution_clock,
                ) > 0 {
                    current
                } else {
                    old(self).position_impact_distribution_clock
                },
                ..*old(self)
            }),
    {
        just_passed_in_seconds(&mut self.position_impact_distribution_clock, current)
    }

    /// Write the staged pool and clock back into the market, and say what to mint and burn.
    /// Minting must have been enabled when there is something to mint.
    pub fn commit(self, market: &mut Market) -> (r: LiquidityCommit)
        requires
            self.to_mint != 0 ==> self.mint_enabled,
        ensures
            r == (LiquidityCommit {
                mint: if self.to_mint != 0 { Some(self.to_mint) } else { None },
                burn: if self.to_burn != 0 { Some(self.to_burn) } else { None },
            }),
            final(market).pools.pool_of(PoolKind::PositionImpact) == self.position_impact,
            forall|k: PoolKind|
                k != PoolKind::PositionImpact ==> #[trigger] final(market).pools.pool_of(k) == old(
                    market,
                ).pools.pool_of(k),
            final(market).clocks == (Clocks {
                price_impact_distribution: self.position_impact_distribution_clock,
                ..old(market).clocks
            }),
            final(market).flag == old(market).flag,
            final(market).meta == old(market).meta,
            final(market).store == old(market).store,
            final(market).state == old(market).state,
    {
        let mint = if self.to_mint != 0 {
            Some(self.to_mint)
        } else {
            None
        };
        let burn = if self.to_burn != 0 {
            Some(self.to_burn)
        } else {
            None
        };
        market.pools.set(PoolKind::PositionImpact, self.position_impact);
        market.clocks.price_impact_distribution = self.position_impact_distribution_clock;
        LiquidityCommit { mint, burn }
    }
}

/// The amount of market tokens to mint to the receiver of a market that mints right away: minting
/// needs transfers enabled and a receiver, and an amount that fits in a token amount.
pub fn market_mint_amount(transfer_enabled: bool, receiver_set: bool, amount: u128) -> (r: Result<u64, Error>)
    ensures
        !transfer_enabled ==> r == Err::<u64, Error>(Error::InvalidArgument),
        transfer_enabled && !receiver_set ==> r == Err::<u64, Error>(Error::MintReceiverNotSet),
        transfer_enabled && receiver_set && amount > u64::MAX ==> r == Err::<u64, Error>(Error::Overflow),
        transfer_enabled && receiver_set && amount <= u64::MAX ==> r == Ok::<u64, Error>(amount as u64),
{
    if !transfer_enabled {
        return Err(Error::InvalidArgument);
    }
    if !receiver_set {
        return Err(Error::MintReceiverNotSet);
    }
    if amount > u64::MAX as u128 {
        return Err(Error::Overflow);
    }
    Ok(amount as u64)
}

/// The amount of market tokens to burn from the withdrawal vault of a market that burns right away:
/// burning needs transfers enabled and a vault, and an amount that fits in a token amount.
pub fn market_burn_amount(transfer_enabled: bool, vault_set: bool, amount: u128) -> (r: Result<u64, Error>)
    ensures
        !transfer_enabled ==> r == Err::<u64, Error>(Error::InvalidArgument),
        transfer_enabled && !vault_set ==> r == Err::<u64, Error>(Error::WithdrawalVaultNotSet),
        transfer_enabled && vault_set && amount > u64::MAX ==> r == Err::<u64, Error>(Error::Overflow),
        transfer_enabled && vault_set && amount <= u64::MAX ==> r == Ok::<u64, Error>(amount as u64),
{
    if !transfer_enabled {
        return Err(Error::InvalidArgument);
    }
    if !vault_set {
        return Err(Error::WithdrawalVaultNotSet);
    }
    if amount > u64::MAX as u128 {
        return Err(Error::Overflow);
    }
    Ok(amount as u64)
}

} // verus!
