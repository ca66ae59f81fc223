//! The market account: tokens, flags, token balances, counters and clocks.
use vstd::prelude::*;

use crate::clock::{clock_spec, ClockKind, Clocks};
use crate::core_error::CoreError;
use crate::error::Error;
use crate::pool::{initial_pool_spec, Pool, PoolKind, Pools};

verus! {

/// A 32-byte account address, as two big-endian halves.
#[derive(Debug, Clone, Copy, PartialEq, Eq, Structural, Hash)]
pub struct Address {
    /// The first 16 bytes.
    pub hi: u128,
    /// The last 16 bytes.
    pub lo: u128,
}

/// The byte order of addresses.
pub open spec fn address_lt(a: Address, b: Address) -> bool {
    a.hi < b.hi || (a.hi == b.hi && a.lo < b.lo)
}

impl Address {
    /// The all-zero address.
    pub fn zero() -> (r: Address)
        ensures
            r.hi == 0 && r.lo == 0,
    {
        Address { hi: 0, lo: 0 }
    }

    /// Whether this address is the all-zero address.
    pub fn is_zero(&self) -> (r: bool)
        ensures
            r == (self.hi == 0 && self.lo == 0),
    {
        self.hi == 0 && self.lo == 0
    }

    /// Whether `self` comes before `other` in byte order.
    pub fn lt(&self, other: &Address) -> (r: bool)
        ensures
            r == address_lt(*self, *other),
    {
        self.hi < other.hi || (self.hi == other.hi && self.lo < other.lo)
    }
}

/// Market tokens.
#[derive(Debug, Clone, Copy, PartialEq, Eq, Structural)]
pub struct MarketMeta {
    /// Market token.
    pub market_token_mint: Address,
    /// Index token.
    pub index_token_mint: Address,
    /// Long token.
    pub long_token_mint: Address,
    /// Short token.
    pub short_token_mint: Address,
}

/// Whether the sequence is strictly increasing in byte order.
pub open spec fn strictly_sorted(s: Seq<Address>) -> bool {
    forall|i: int, j: int| 0 <= i < j < s.len() ==> address_lt(s[i], s[j])
}

pub(crate) fn insert_sorted(v: &mut Vec<Address>, a: Address)
    requires
        strictly_sorted(old(v)@),
    ensures
        strictly_sorted(final(v)@),
        final(v)@.to_set() == old(v)@.to_set().insert(a),
{
    let mut i: usize = 0;
    while i < v.len() && !a.lt(&v[i])
        invariant
            0 <= i <= v@.len(),
            v@ == old(v)@,
            strictly_sorted(v@),
            forall|k: int| 0 <= k < i ==> address_lt(v@[k], a),
        decreases v@.len() - i,
    {
        if v[i] == a {
            proof {
                assert(v@.to_set().insert(a) =~= v@.to_set()) by {
                    assert(v@.contains(a)) by {
                        assert(v@[i as int] == a);
                    }
                }
            }
            return;
        }
        i = i + 1;
    }
    let ghost before = v@;
    assert(i < before.len() ==> address_lt(a, before[i as int]));
    v.insert(i, a);
    proof {
        let w = v@;
        assert(w == before.insert(i as int, a));
        assert(forall|k: int| 0 <= k < i ==> w[k] == before[k]);
        assert(w[i as int] == a);
        assert(forall|k: int| i < k < w.len() ==> w[k] == before[k - 1]);
        assert forall|x: int, y: int| 0 <= x < y < w.len() implies address_lt(w[x], w[y]) by {
            if y < i {
                assert(address_lt(before[x], before[y]));
            } else if y == i {
                assert(address_lt(before[x], a));
            } else if x < i {
                assert(address_lt(before[x], a));
                assert(address_lt(a, before[i as int]));
                if y - 1 > i {
                    assert(address_lt(before[i as int], before[y - 1]));
                }
            } else if x == i {
                assert(address_lt(a, before[i as int]));
                if y - 1 > i {
                    assert(address_lt(before[i as int], before[y - 1]));
                }
            } else {
                assert(address_lt(before[x - 1], before[y - 1]));
            }
        }
        assert(w.to_set() =~= before.to_set().insert(a)) by {
            assert forall|x: Address| w.to_set().contains(x) implies before.to_set().insert(a).contains(
                x,
            ) by {
                let k = choose|k: int| 0 <= k < w.len() && w[k] == x;
                if k < i {
                    assert(before[k] == x);
                } else if k > i {
                    assert(before[k - 1] == x);
                }
            }
            assert forall|x: Address| before.to_set().insert(a).contains(x) implies w.to_set().contains(
                x,
            ) by {
                if x == a {
                    assert(w[i as int] == a);
                } else {
                    let k = choose|k: int| 0 <= k < before.len() && before[k] == x;
                    if k < i {
                        assert(w[k] == x);
                    } else {
                        assert(w[k + 1] == x);
                    }
                }
            }
        }
    }
}

impl MarketMeta {
    /// Check if the given token is a valid collateral token.
    pub fn is_collateral_token(&self, token: &Address) -> (r: bool)
        ensures
            r == (*token == self.long_token_mint || *token == self.short_token_mint),
    {
        *token == self.long_token_mint || *token == self.short_token_mint
    }

    /// Get pnl token.
    pub fn pnl_token(&self, is_long: bool) -> (r: Address)
        ensures
            r == if is_long { self.long_token_mint } else { self.short_token_mint },
    {
        if is_long {
            self.long_token_mint
        } else {
            self.short_token_mint
        }
    }

    /// The side of a collateral token: `true` for the long token.
    pub fn to_token_side(&self, token: &Address) -> (r: Result<bool, CoreError>)
        ensures
            *token == self.long_token_mint ==> r == Ok::<bool, CoreError>(true),
            *token != self.long_token_mint && *token == self.short_token_mint ==> r == Ok::<
                bool,
                CoreError,
            >(false),
            *token != self.long_token_mint && *token != self.short_token_mint ==> r == Err::<
                bool,
                CoreError,
            >(CoreError::InvalidArgument),
    {
        if *token == self.long_token_mint {
            Ok(true)
        } else if *token == self.short_token_mint {
            Ok(false)
        } else {
            Err(CoreError::InvalidArgument)
        }
    }

    /// The other collateral token.
    pub fn opposite_token(&self, token: &Address) -> (r: Result<Address, CoreError>)
        ensures
            *token == self.long_token_mint ==> r == Ok::<Address, CoreError>(self.short_token_mint),
            *token != self.long_token_mint && *token == self.short_token_mint ==> r == Ok::<
                Address,
                CoreError,
            >(self.long_token_mint),
            *token != self.long_token_mint && *token != self.short_token_mint ==> r == Err::<
                Address,
                CoreError,
            >(CoreError::InvalidArgument),
    {
        if *token == self.long_token_mint {
            Ok(self.short_token_mint)
        } else if *token == self.short_token_mint {
            Ok(self.long_token_mint)
        } else {
            Err(CoreError::InvalidArgument)
        }
    }

    /// Check if the given token is a valid collateral token, return error if it is not.
    pub fn validate_collateral_token(&self, token: &Address) -> (r: Result<(), CoreError>)
        ensures
            r is Ok <==> (*token == self.long_token_mint || *token == self.short_token_mint),
            r is Err ==> r == Err::<(), CoreError>(CoreError::InvalidCollateralToken),
    {
        if self.is_collateral_token(token) {
            Ok(())
        } else {
            Err(CoreError::InvalidCollateralToken)
        }
    }

    /// The index, long and short tokens, in byte order and without repetition.
    pub fn ordered_tokens(&self) -> (r: Vec<Address>)
        ensures
            strictly_sorted(r@),
            r@.to_set() == set![self.index_token_mint, self.long_token_mint, self.short_token_mint],
    {
        let mut v: Vec<Address> = Vec::new();
        proof {
            assert(v@.to_set() =~= Set::<Address>::empty());
        }
        insert_sorted(&mut v, self.index_token_mint);
        insert_sorted(&mut v, self.long_token_mint);
        insert_sorted(&mut v, self.short_token_mint);
        proof {
            assert(v@.to_set() =~= set![self.index_token_mint, self.long_token_mint, self.short_token_mint]);
        }
        v
    }
}

/// Market flags.
#[derive(Debug, Clone, Copy, PartialEq, Eq, Structural)]
pub enum MarketFlag {
    /// Is enabled.
    Enabled,
    /// Is Pure.
    Pure,
    /// Is auto-deleveraging enabled for long.
    AutoDeleveragingEnabledForLong,
    /// Is auto-deleveraging enabled for short.
    AutoDeleveragingEnabledForShort,
}

/// The bit of a flag.
pub open spec fn market_flag_index(flag: MarketFlag) -> u8 {
    match flag {
        MarketFlag::Enabled => 0,
        MarketFlag::Pure => 1,
        MarketFlag::AutoDeleveragingEnabledForLong => 2,
        MarketFlag::AutoDeleveragingEnabledForShort => 3,
    }
}

fn market_flag_to_index(flag: MarketFlag) -> (r: u8)
    ensures
        r == market_flag_index(flag),
        r < 8,
{
    match flag {
        MarketFlag::Enabled => 0,
        MarketFlag::Pure => 1,
        MarketFlag::AutoDeleveragingEnabledForLong => 2,
        MarketFlag::AutoDeleveragingEnabledForShort => 3,
    }
}

/// Bit `i` of `v`.
pub open spec fn bit_of(v: u8, i: u8) -> bool {
    (v >> i) & 1u8 == 1u8
}

/// `v` with bit `i` set to `b`.
pub open spec fn with_bit(v: u8, i: u8, b: bool) -> u8 {
    if b {
        v | (1u8 << i)
    } else {
        v & !(1u8 << i)
    }
}

/// Read bit `i` of a flag byte.
pub fn get_bit(v: u8, i: u8) -> (r: bool)
    requires
        i < 8,
    ensures
        r == bit_of(v, i),
{
    (v >> i) & 1 == 1
}

/// Set bit `i` of a flag byte.
pub fn set_bit(v: u8, i: u8, b: bool) -> (r: u8)
    requires
        i < 8,
    ensures
        r == with_bit(v, i, b),
{
    if b {
        v | (1u8 << i)
    } else {
        v & !(1u8 << i)
    }
}

/// Setting a bit then reading it gives what was set, and leaves the other bits as they were.
pub proof fn lemma_bit_set_get(v: u8, i: u8, j: u8, b: bool)
    requires
        i < 8,
        j < 8,
    ensures
        bit_of(with_bit(v, i, b), i) == b,
        i != j ==> bit_of(with_bit(v, i, b), j) == bit_of(v, j),
{
    if b {
        assert(((v | (1u8 << i)) >> i) & 1u8 == 1u8) by (bit_vector)
            requires
                i < 8,
        ;
        assert(i != j ==> (((v | (1u8 << i)) >> j) & 1u8 == 1u8) == ((v >> j) & 1u8 == 1u8))
            by (bit_vector)
            requires
                i < 8,
                j < 8,
        ;
    } else {
        assert(((v & !(1u8 << i)) >> i) & 1u8 != 1u8) by (bit_vector)
            requires
                i < 8,
        ;
        assert(i != j ==> (((v & !(1u8 << i)) >> j) & 1u8 == 1u8) == ((v >> j) & 1u8 == 1u8))
            by (bit_vector)
            requires
                i < 8,
                j < 8,
        ;
    }
}

/// The state of a market.
#[derive(Debug, Clone, Copy, PartialEq, Eq, Structural)]
pub struct MarketState {
    /// Long token balance.
    pub long_token_balance: u64,
    /// Short token balance.
    pub short_token_balance: u64,
    /// Funding factor per second.
    pub funding_factor_per_second: i128,
    /// Trade count.
    pub trade_count: u64,
    /// Deposit count.
    pub deposit_count: u64,
    /// Withdrawal count.
    pub withdrawal_count: u64,
    /// Order count.
    pub order_count: u64,
}

/// The next id of a counter, and the counter after taking it.
pub open spec fn next_id_spec(count: u64) -> Result<u64, CoreError> {
    if count == u64::MAX {
        Err(CoreError::AmountOverflow)
    } else {
        Ok((count + 1) as u64)
    }
}

fn next_id(count: &mut u64) -> (r: Result<u64, CoreError>)
    ensures
        r == next_id_spec(*old(count)),
        r matches Ok(id) ==> *final(count) == id,
        r is Err ==> *final(count) == *old(count),
{
    match count.checked_add(1) {
        None => Err(CoreError::AmountOverflow),
        Some(next) => {
            *count = next;
            Ok(next)
        },
    }
}

impl MarketState {
    /// Get the long token balance.
    pub fn long_token_balance_raw(&self) -> (r: u64)
        ensures
            r == self.long_token_balance,
    {
        self.long_token_balance
    }

    /// Get the short token balance.
    pub fn short_token_balance_raw(&self) -> (r: u64)
        ensures
            r == self.short_token_balance,
    {
        self.short_token_balance
    }

    /// Get funding factor per second.
    pub fn funding_factor_per_second(&self) -> (r: i128)
        ensures
            r == self.funding_factor_per_second,
    {
        self.funding_factor_per_second
    }

    /// Get current trade count.
    pub fn trade_count(&self) -> (r: u64)
        ensures
            r == self.trade_count,
    {
        self.trade_count
    }

    /// Get current deposit count.
    pub fn deposit_count(&self) -> (r: u64)
        ensures
            r == self.deposit_count,
    {
        self.deposit_count
    }

    /// Get current withdrawal count.
    pub fn withdrawal_count(&self) -> (r: u64)
        ensures
            r == self.withdrawal_count,
    {
        self.withdrawal_count
    }

    /// Get current order count.
    pub fn order_count(&self) -> (r: u64)
        ensures
            r == self.order_count,
    {
        self.order_count
    }

    /// Next deposit id: the deposit count plus one, which becomes the count.
    pub fn next_deposit_id(&mut self) -> (r: Result<u64, CoreError>)
        ensures
            r == next_id_spec(old(self).deposit_count),
            r matches Ok(id) ==> *final(self) == (MarketState { deposit_count: id, ..*old(self) }),
            r is Err ==> *final(self) == *old(self),
    {
        next_id(&mut self.deposit_count)
    }

    /// Next withdrawal id: the withdrawal count plus one, which becomes the count.
    pub fn next_withdrawal_id(&mut self) -> (r: Result<u64, CoreError>)
        ensures
            r == next_id_spec(old(self).withdrawal_count),
            r matches Ok(id) ==> *final(self) == (MarketState { withdrawal_count: id, ..*old(self) }),
            r is Err ==> *final(self) == *old(self),
    {
        next_id(&mut self.withdrawal_count)
    }

    /// Next order id: the order count plus one, which becomes the count.
    pub fn next_order_id(&mut self) -> (r: Result<u64, CoreError>)
        ensures
            r == next_id_spec(old(self).order_count),
            r matches Ok(id) ==> *final(self) == (MarketState { order_count: id, ..*old(self) }),
            r is Err ==> *final(self) == *old(self),
    {
        next_id(&mut self.order_count)
    }

    /// Next trade id: the trade count plus one, which becomes the count.
    pub fn next_trade_id(&mut self) -> (r: Result<u64, CoreError>)
        ensures
            r == next_id_spec(old(self).trade_count),
            r matches Ok(id) ==> *final(self) == (MarketState { trade_count: id, ..*old(self) }),
            r is Err ==> *final(self) == *old(self),
    {
        next_id(&mut self.trade_count)
    }
}

/// Ids handed out by a counter strictly increase: two successive ids differ by one.
pub proof fn lemma_next_id_increases(count: u64)
    requires
        next_id_spec(count) is Ok,
        next_id_spec(next_id_spec(count).unwrap()) is Ok,
    ensures
        next_id_spec(next_id_spec(count).unwrap()).unwrap() == next_id_spec(count).unwrap() + 1,
        next_id_spec(count).unwrap() > count,
{
}

/// Market.
#[derive(Debug, Clone, Copy)]
pub struct Market {
    /// Flags.
    pub flag: u8,
    /// Tokens.
    pub meta: MarketMeta,
    /// The store that manages the market.
    pub store: Address,
    /// Pools.
    pub pools: Pools,
    /// Clocks.
    pub clocks: Clocks,
    /// State.
    pub state: MarketState,
}

/// The value of a flag of a market.
pub open spec fn market_flag_spec(market: Market, flag: MarketFlag) -> bool {
    bit_of(market.flag, market_flag_index(flag))
}

/// The balances after recording a transfer of `amount` in (or out) on a side.
pub open spec fn record_transfer_spec(market: Market, is_long_token: bool, amount: int, is_in: bool) -> Result<
    MarketState,
    CoreError,
> {
    let state = market.state;
    let to_long = market_flag_spec(market, MarketFlag::Pure) || is_long_token;
    let current = if to_long {
        state.long_token_balance as int
    } else {
        state.short_token_balance as int
    };
    let next = if is_in {
        current + amount
    } else {
        current - amount
    };
    if next < 0 || next > u64::MAX {
        Err(CoreError::AmountOverflow)
    } else if to_long {
        Ok(MarketState { long_token_balance: next as u64, ..state })
    } else {
        Ok(MarketState { short_token_balance: next as u64, ..state })
    }
}

impl Market {
    /// Initialize the market: tokens, store, the enabled flag, the pure flag (the long and short
    /// tokens are the same), the pools and the clocks.
    pub fn init(
        &mut self,
        store: Address,
        market_token_mint: Address,
        index_token_mint: Address,
        long_token_mint: Address,
        short_token_mint: Address,
        is_enabled: bool,
        current: i64,
    )
        ensures
            final(self).store == store,
            final(self).meta == (MarketMeta {
                market_token_mint,
                index_token_mint,
                long_token_mint,
                short_token_mint,
            }),
            market_flag_spec(*final(self), MarketFlag::Enabled) == is_enabled,
            market_flag_spec(*final(self), MarketFlag::Pure) == (long_token_mint == short_token_mint),
            final(self).clocks.price_impact_distribution == current,
            final(self).clocks.borrowing == current,
            final(self).clocks.funding == current,
            forall|k: PoolKind| #[trigger] final(self).pools.pool_of(k) == initial_pool_spec(
                k,
                long_token_mint == short_token_mint,
            ),
            final(self).state == old(self).state,
    {
        self.store = store;
        self.set_enabled(is_enabled);
        self.meta = MarketMeta { market_token_mint, index_token_mint, long_token_mint, short_token_mint };
        let is_pure = long_token_mint == short_token_mint;
        proof {
            lemma_bit_set_get(self.flag, 1, 0, is_pure);
        }
        self.set_flag(MarketFlag::Pure, is_pure);
        self.pools.init(is_pure);
        self.clocks.init_to_current(current);
    }

    /// Get pool of the given kind.
    pub fn pool(&self, kind: PoolKind) -> (r: Option<Pool>)
        ensures
            r == Some(self.pools.pool_of(kind)),
    {
        self.pools.get(kind)
    }

    /// Try to get pool of the given kind.
    pub fn try_pool(&self, kind: PoolKind) -> (r: Result<Pool, Error>)
        ensures
            r == Ok::<Pool, Error>(self.pools.pool_of(kind)),
    {
        match self.pools.get(kind) {
            Some(pool) => Ok(pool),
            None => Err(Error::MissingPoolKind(kind)),
        }
    }

    /// Get clock of the given kind.
    pub fn clock(&self, kind: ClockKind) -> (r: Option<i64>)
        ensures
            r == Some(clock_spec(self.clocks, kind)),
    {
        self.clocks.get(kind)
    }

    /// Get meta.
    pub fn meta(&self) -> (r: &MarketMeta)
        ensures
            *r == self.meta,
    {
        &self.meta
    }

    /// Get state.
    pub fn state(&self) -> (r: &MarketState)
        ensures
            *r == self.state,
    {
        &self.state
    }

    /// Get flag.
    pub fn flag(&self, flag: MarketFlag) -> (r: bool)
        ensures
            r == market_flag_spec(*self, flag),
    {
        get_bit(self.flag, market_flag_to_index(flag))
    }

    /// Set flag; the other flags stay as they were.
    pub fn set_flag(&mut self, flag: MarketFlag, value: bool)
        ensures
            *final(self) == (Market { flag: with_bit(old(self).flag, market_flag_index(flag), value), ..*old(self) }),
            market_flag_spec(*final(self), flag) == value,
            forall|f: MarketFlag|
                f != flag ==> market_flag_spec(*final(self), f) == market_flag_spec(*old(self), f),
    {
        let idx = market_flag_to_index(flag);
        proof {
            assert forall|f: MarketFlag| f != flag implies market_flag_spec(
                Market { flag: with_bit(self.flag, idx, value), ..*self },
                f,
            ) == market_flag_spec(*self, f) by {
                lemma_bit_set_get(self.flag, idx, market_flag_index(f), value);
            }
            lemma_bit_set_get(self.flag, idx, idx, value);
        }
        self.flag = set_bit(self.flag, idx, value);
    }

    /// Is this market a pure market, i.e., a single token market.
    pub fn is_pure(&self) -> (r: bool)
        ensures
            r == market_flag_spec(*self, MarketFlag::Pure),
    {
        self.flag(MarketFlag::Pure)
    }

    /// Is this market enabled.
    pub fn is_enabled(&self) -> (r: bool)
        ensures
            r == market_flag_spec(*self, MarketFlag::Enabled),
    {
        self.flag(MarketFlag::Enabled)
    }

    /// Set enabled.
    pub fn set_enabled(&mut self, enabled: bool)
        ensures
            *final(self) == (Market {
                flag: with_bit(old(self).flag, market_flag_index(MarketFlag::Enabled), enabled),
                ..*old(self)
            }),
            market_flag_spec(*final(self), MarketFlag::Enabled) == enabled,
            forall|f: MarketFlag|
                f != MarketFlag::Enabled ==> market_flag_spec(*final(self), f) == market_flag_spec(
                    *old(self),
                    f,
                ),
    {
        self.set_flag(MarketFlag::Enabled, enabled);
    }

    /// Is ADL enabled for the side.
    pub fn is_adl_enabled(&self, is_long: bool) -> (r: bool)
        ensures
            r == market_flag_spec(
                *self,
                if is_long {
                    MarketFlag::AutoDeleveragingEnabledForLong
                } else {
                    MarketFlag::AutoDeleveragingEnabledForShort
                },
            ),
    {
        if is_long {
            self.flag(MarketFlag::AutoDeleveragingEnabledForLong)
        } else {
            self.flag(MarketFlag::AutoDeleveragingEnabledForShort)
        }
    }

    /// Set ADL enabled for the side.
    pub fn set_adl_enabled(&mut self, is_long: bool, enabled: bool)
        ensures
            ({
                let f = if is_long {
                    MarketFlag::AutoDeleveragingEnabledForLong
                } else {
                    MarketFlag::AutoDeleveragingEnabledForShort
                };
                &&& market_flag_spec(*final(self), f) == enabled
                &&& forall|g: MarketFlag| g != f ==> market_flag_spec(*final(self), g) == market_flag_spec(*old(self), g)
                &&& *final(self) == (Market { flag: final(self).flag, ..*old(self) })
            }),
    {
        if is_long {
            self.set_flag(MarketFlag::AutoDeleveragingEnabledForLong, enabled)
        } else {
            self.set_flag(MarketFlag::AutoDeleveragingEnabledForShort, enabled)
        }
    }

    /// Validate that the market is managed by `store` and enabled.
    pub fn validate(&self, store: &Address) -> (r: Result<(), CoreError>)
        ensures
            *store != self.store ==> r == Err::<(), CoreError>(CoreError::InvalidMarket),
            *store == self.store && !market_flag_spec(*self, MarketFlag::Enabled) ==> r == Err::<
                (),
                CoreError,
            >(CoreError::DisabledMarket),
            *store == self.store && market_flag_spec(*self, MarketFlag::Enabled) ==> r is Ok,
    {
        if *store != self.store {
            return Err(CoreError::InvalidMarket);
        }
        if !self.is_enabled() {
            return Err(CoreError::DisabledMarket);
        }
        Ok(())
    }

    /// Record tokens transferred into the market vault: a pure market keeps both sides in the long balance.
    pub fn record_transferred_in(&mut self, is_long_token: bool, amount: u64) -> (r: Result<(), CoreError>)
        ensures
            match record_transfer_spec(*old(self), is_long_token, amount as int, true) {
                Ok(s) => r is Ok && *final(self) == (Market { state: s, ..*old(self) }),
                Err(e) => r == Err::<(), CoreError>(e) && *final(self) == *old(self),
            },
    {
        if self.is_pure() || is_long_token {
            match self.state.long_token_balance.checked_add(amount) {
                None => Err(CoreError::AmountOverflow),
                Some(v) => {
                    self.state.long_token_balance = v;
                    Ok(())
                },
            }
        } else {
            match self.state.short_token_balance.checked_add(amount) {
                None => Err(CoreError::AmountOverflow),
                Some(v) => {
                    self.state.short_token_balance = v;
                    Ok(())
                },
            }
        }
    }

    /// Record tokens transferred out of the market vault.
    pub fn record_transferred_out(&mut self, is_long_token: bool, amount: u64) -> (r: Result<(), CoreError>)
        ensures
            match record_transfer_spec(*old(self), is_long_token, amount as int, false) {
                Ok(s) => r is Ok && *final(self) == (Market { state: s, ..*old(self) }),
                Err(e) => r == Err::<(), CoreError>(e) && *final(self) == *old(self),
            },
    {
        if self.is_pure() || is_long_token {
            match self.state.long_token_balance.checked_sub(amount) {
                None => Err(CoreError::AmountOverflow),
                Some(v) => {
                    self.state.long_token_balance = v;
                    Ok(())
                },
            }
        } else {
            match self.state.short_token_balance.checked_sub(amount) {
                None => Err(CoreError::AmountOverflow),
                Some(v) => {
                    self.state.short_token_balance = v;
                    Ok(())
                },
            }
        }
    }

    /// Record tokens transferred in, by token: the token must be the long or the short token.
    pub fn record_transferred_in_by_token(&mut self, token: &Address, amount: u64) -> (r: Result<
        (),
        CoreError,
    >)
        ensures
            *token != old(self).meta.long_token_mint && *token != old(self).meta.short_token_mint ==> r
                == Err::<(), CoreError>(CoreError::InvalidCollateralToken) && *final(self) == *old(self),
            *token == old(self).meta.long_token_mint || *token == old(self).meta.short_token_mint ==> match record_transfer_spec(
                *old(self),
                *token == old(self).meta.long_token_mint,
                amount as int,
                true,
            ) {
                Ok(s) => r is Ok && *final(self) == (Market { state: s, ..*old(self) }),
                Err(e) => r == Err::<(), CoreError>(e) && *final(self) == *old(self),
            },
    {
        if self.meta.long_token_mint == *token {
            self.record_transferred_in(true, amount)
        } else if self.meta.short_token_mint == *token {
            self.record_transferred_in(false, amount)
        } else {
            Err(CoreError::InvalidCollateralToken)
        }
    }

    /// Record tokens transferred out, by token: the token must be the long or the short token.
    pub fn record_transferred_out_by_token(&mut self, token: &Address, amount: u64) -> (r: Result<
        (),
        CoreError,
    >)
        ensures
            *token != old(self).meta.long_token_mint && *token != old(self).meta.short_token_mint ==> r
                == Err::<(), CoreError>(CoreError::InvalidCollateralToken) && *final(self) == *old(self),
            *token == old(self).meta.long_token_mint || *token == old(self).meta.short_token_mint ==> match record_transfer_spec(
                *old(self),
                *token == old(self).meta.long_token_mint,
                amount as int,
                false,
            ) {
                Ok(s) => r is Ok && *final(self) == (Market { state: s, ..*old(self) }),
                Err(e) => r == Err::<(), CoreError>(e) && *final(self) == *old(self),
            },
    {
        if self.meta.long_token_mint == *token {
            self.record_transferred_out(true, amount)
        } else if self.meta.short_token_mint == *token {
            self.record_transferred_out(false, amount)
        } else {
            Err(CoreError::InvalidCollateralToken)
        }
    }
}

/// Recording a transfer in and then the same transfer out restores the balances.
pub proof fn lemma_transfer_round_trip(market: Market, is_long_token: bool, amount: u64)
    requires
        record_transfer_spec(market, is_long_token, amount as int, true) is Ok,
    ensures
        record_transfer_spec(
            Market {
                state: record_transfer_spec(market, is_long_token, amount as int, true).unwrap(),
                ..market
            },
            is_long_token,
            amount as int,
            false,
        ) == Ok::<MarketState, CoreError>(market.state),
{
}

} // verus!
