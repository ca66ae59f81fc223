//! The prices that an oracle account holds while an instruction runs: a map from token to price,
//! kept as two vectors sorted by token.
use vstd::prelude::*;

use crate::market::{address_lt, Address};
use crate::price::Price;

verus! {

/// Maximum number of tokens for a single price map to store.
pub const MAX_TOKENS: usize = 32;

/// Errors of setting prices.
#[derive(Debug, Clone, Copy, PartialEq, Eq, Structural)]
pub enum PriceMapError {
    /// The price of the token is already set.
    PriceAlreadySet,
}

/// Price Map.
#[derive(Debug, Clone)]
pub struct PriceMap {
    prices: Vec<Price>,
    tokens: Vec<Address>,
}

/// The tokens are in strictly increasing byte order.
pub open spec fn sorted_tokens(tokens: Seq<Address>) -> bool {
    forall|i: int, j: int| 0 <= i < j < tokens.len() ==> address_lt(#[trigger] tokens[i], #[trigger] tokens[j])
}

/// The position of `token` in `tokens`.
pub open spec fn position_of(tokens: Seq<Address>, token: Address) -> int {
    choose|i: int| 0 <= i < tokens.len() && tokens[i] == token
}

/// A token occurs at most once in sorted tokens: where it occurs is its position.
proof fn lemma_position_unique(tokens: Seq<Address>, token: Address, i: int)
    requires
        sorted_tokens(tokens),
        0 <= i < tokens.len(),
        tokens[i] == token,
    ensures
        position_of(tokens, token) == i,
{
    let j = position_of(tokens, token);
    assert(0 <= j < tokens.len() && tokens[j] == token);
    if j < i {
        assert(address_lt(tokens[j], tokens[i]));
    } else if i < j {
        assert(address_lt(tokens[i], tokens[j]));
    }
}

impl PriceMap {
    /// The tokens are sorted and each has a price.
    pub closed spec fn wf(self) -> bool {
        &&& sorted_tokens(self.tokens@)
        &&& self.tokens.len() == self.prices.len()
    }

    /// The prices by token.
    pub closed spec fn view(self) -> Map<Address, Price> {
        Map::new(
            |token: Address| self.tokens@.contains(token),
            |token: Address| self.prices@[position_of(self.tokens@, token)],
        )
    }

    /// An empty price map.
    pub fn new() -> (r: Self)
        ensures
            r.wf(),
            r.view() == Map::<Address, Price>::empty(),
    {
        let r = PriceMap { prices: Vec::new(), tokens: Vec::new() };
        assert(r.view() =~= Map::<Address, Price>::empty());
        r
    }

    /// Get price of the given token.
    pub fn get(&self, token: &Address) -> (r: Option<Price>)
        requires
            self.wf(),
        ensures
            r == if self.view().contains_key(*token) {
                Some(self.view()[*token])
            } else {
                None
            },
    {
        let mut i: usize = 0;
        while i < self.tokens.len()
            invariant
                i <= self.tokens.len(),
                self.wf(),
                forall|j: int| 0 <= j < i ==> self.tokens@[j] != *token,
            decreases self.tokens.len() - i,
        {
            if self.tokens[i] == *token {
                proof {
                    lemma_position_unique(self.tokens@, *token, i as int);
                }
                return Some(self.prices[i]);
            }
            i += 1;
        }
        None
    }

    /// Set the price of the given token; fails if it is already set.
    pub fn set(&mut self, token: &Address, price: Price) -> (r: Result<(), PriceMapError>)
        requires
            old(self).wf(),
        ensures
            final(self).wf(),
            old(self).view().contains_key(*token) ==> r == Err::<(), PriceMapError>(
                PriceMapError::PriceAlreadySet,
            ) && final(self).view() == old(self).view(),
            !old(self).view().contains_key(*token) ==> r is Ok && final(self).view() == old(self).view().insert(
                *token,
                price,
            ),
    {
        let ghost old_tokens = self.tokens@;
        let ghost old_prices = self.prices@;
        let mut p: usize = 0;
        while p < self.tokens.len()
            invariant
                p <= self.tokens.len(),
                self.wf(),
                self.tokens@ == old_tokens,
                forall|j: int| 0 <= j < p ==> address_lt(#[trigger] self.tokens@[j], *token),
            ensures
                p <= self.tokens.len(),
                self.wf(),
                self.tokens@ == old_tokens,
                forall|j: int| 0 <= j < p ==> address_lt(#[trigger] self.tokens@[j], *token),
                p < self.tokens.len() ==> address_lt(*token, self.tokens@[p as int]),
            decreases self.tokens.len() - p,
        {
            if self.tokens[p] == *token {
                return Err(PriceMapError::PriceAlreadySet);
            }
            if token.lt(&self.tokens[p]) {
                break;
            }
            p += 1;
        }
        proof {
            assert forall|j: int| p <= j < old_tokens.len() implies address_lt(*token, #[trigger] old_tokens[j]) by {
                assert(address_lt(*token, old_tokens[p as int]));
                if j > p {
                    assert(address_lt(old_tokens[p as int], old_tokens[j]));
                }
            }
            assert(!old_tokens.contains(*token));
        }
        self.tokens.insert(p, *token);
        self.prices.insert(p, price);
        proof {
            let t = self.tokens@;
            assert(t == old_tokens.insert(p as int, *token));
            assert(sorted_tokens(t)) by {
                assert forall|i: int, j: int| 0 <= i < j < t.len() implies address_lt(
                    #[trigger] t[i],
                    #[trigger] t[j],
                ) by {
                    if j < p {
                    } else if j == p {
                    } else if i < p {
                        assert(t[j] == old_tokens[j - 1]);
                    } else if i == p {
                        assert(t[j] == old_tokens[j - 1]);
                    } else {
                        assert(t[i] == old_tokens[i - 1]);
                        assert(t[j] == old_tokens[j - 1]);
                    }
                }
            }
            let old_map = Map::new(
                |a: Address| old_tokens.contains(a),
                |a: Address| old_prices[position_of(old_tokens, a)],
            );
            assert forall|a: Address| #[trigger] self.view().contains_key(a) == old_map.insert(
                *token,
                price,
            ).contains_key(a) by {
                if a != *token {
                    if old_tokens.contains(a) {
                        let k = choose|k: int| 0 <= k < old_tokens.len() && old_tokens[k] == a;
                        if k < p {
                            assert(t[k] == a);
                        } else {
                            assert(t[k + 1] == a);
                        }
                    }
                    if t.contains(a) {
                        let k = choose|k: int| 0 <= k < t.len() && t[k] == a;
                        if k < p {
                            assert(old_tokens[k] == a);
                        } else if k > p {
                            assert(old_tokens[k - 1] == a);
                        }
                    }
                } else {
                    assert(t[p as int] == a);
                }
            }
            assert forall|a: Address| #[trigger] self.view().contains_key(a) implies self.view()[a] == old_map.insert(
                *token,
                price,
            )[a] by {
                if a == *token {
                    lemma_position_unique(t, a, p as int);
                } else {
                    let k = choose|k: int| 0 <= k < t.len() && t[k] == a;
                    lemma_position_unique(t, a, k);
                    if k < p {
                        lemma_position_unique(old_tokens, a, k);
                    } else {
                        assert(k != p);
                        lemma_position_unique(old_tokens, a, k - 1);
                    }
                }
            }
            assert(self.view() =~= old_map.insert(*token, price));
        }
        Ok(())
    }

    /// Clear all prices.
    pub fn clear(&mut self)
        ensures
            final(self).wf(),
            final(self).view() == Map::<Address, Price>::empty(),
    {
        self.tokens.clear();
        self.prices.clear();
        assert(self.view() =~= Map::<Address, Price>::empty());
    }

    /// Is empty.
    pub fn is_empty(&self) -> (r: bool)
        requires
            self.wf(),
        ensures
            r == (self.view() == Map::<Address, Price>::empty()),
    {
        if self.tokens.len() == 0 {
            assert(self.view() =~= Map::<Address, Price>::empty());
            true
        } else {
            assert(self.view().contains_key(self.tokens@[0]));
            false
        }
    }

    /// The number of tokens with a price.
    pub fn len(&self) -> (r: usize)
        requires
            self.wf(),
        ensures
            r == self.view().dom().len(),
    {
        proof {
            lemma_dom_len(self.tokens@);
            assert(self.view().dom() =~= self.tokens@.to_set());
        }
        self.tokens.len()
    }
}

/// Sorted tokens hold as many tokens as their set does.
proof fn lemma_dom_len(tokens: Seq<Address>)
    requires
        sorted_tokens(tokens),
    ensures
        tokens.to_set().len() == tokens.len(),
{
    assert(tokens.no_duplicates()) by {
        assert forall|i: int, j: int| 0 <= i < tokens.len() && 0 <= j < tokens.len() && i != j implies tokens[i]
            != tokens[j] by {
            if i < j {
                assert(address_lt(tokens[i], tokens[j]));
            } else {
                assert(address_lt(tokens[j], tokens[i]));
            }
        }
    }
    tokens.unique_seq_to_set();
}

/// Setting the price of a token that has none, then reading it, gives that price; the prices of
/// the other tokens stay as they were.
pub proof fn lemma_set_then_get(map: PriceMap, token: Address, price: Price, other: Address)
    requires
        map.wf(),
        !map.view().contains_key(token),
    ensures
        map.view().insert(token, price).contains_key(token),
        map.view().insert(token, price)[token] == price,
        other != token ==> map.view().insert(token, price).contains_key(other) == map.view().contains_key(other),
        other != token && map.view().contains_key(other) ==> map.view().insert(token, price)[other]
            == map.view()[other],
{
}

/// Errors of setting the prices of an oracle.
#[derive(Debug, Clone, Copy, PartialEq, Eq, Structural)]
pub enum OracleError {
    /// Prices are already set.
    PricesAlreadySet,
    /// More tokens than a price map holds.
    ExceedMaxLengthLimit,
    /// Not enough accounts for the tokens.
    AccountNotEnoughKeys,
    /// The price of a token is already set.
    PriceAlreadySet,
    /// Reading the price of a token failed.
    InvalidPriceFeed,
    /// The token has no config in the token map.
    RequiredResourceNotFound,
    /// The config of the token is disabled.
    TokenConfigDisabled,
}

/// Oracle Account.
#[derive(Debug, Clone)]
pub struct Oracle {
    /// Bump.
    pub bump: u8,
    /// Index.
    pub index: u8,
    /// Primary prices.
    pub primary: PriceMap,
}

/// The price of one token: its config must be in the token map and enabled, then the price read
/// from its feed is taken.
pub open spec fn token_price_spec(config: Option<bool>, price: Result<Price, OracleError>) -> Result<
    Price,
    OracleError,
> {
    match config {
        None => Err(OracleError::RequiredResourceNotFound),
        Some(enabled) => if !enabled {
            Err(OracleError::TokenConfigDisabled)
        } else {
            price
        },
    }
}

/// The prices after setting the first `n` prices in order, or the first error.
pub open spec fn fill_prices_spec(
    map: Map<Address, Price>,
    tokens: Seq<Address>,
    configs: Seq<Option<bool>>,
    prices: Seq<Result<Price, OracleError>>,
    n: nat,
) -> Result<Map<Address, Price>, OracleError>
    decreases n,
{
    if n == 0 {
        Ok(map)
    } else {
        match fill_prices_spec(map, tokens, configs, prices, (n - 1) as nat) {
            Err(e) => Err(e),
            Ok(m) => match token_price_spec(configs[n - 1], prices[n - 1]) {
                Err(e) => Err(e),
                Ok(p) => if m.contains_key(tokens[n - 1]) {
                    Err(OracleError::PriceAlreadySet)
                } else {
                    Ok(m.insert(tokens[n - 1], p))
                },
            },
        }
    }
}

/// What setting the prices of `tokens` from `num_accounts` accounts gives: the checks on the
/// oracle and the numbers, then the prices in order.
pub open spec fn set_prices_spec(
    map: Map<Address, Price>,
    tokens: Seq<Address>,
    num_accounts: nat,
    configs: Seq<Option<bool>>,
    prices: Seq<Result<Price, OracleError>>,
) -> Result<Map<Address, Price>, OracleError> {
    if map != Map::<Address, Price>::empty() {
        Err(OracleError::PricesAlreadySet)
    } else if tokens.len() > MAX_TOKENS {
        Err(OracleError::ExceedMaxLengthLimit)
    } else if tokens.len() > num_accounts {
        Err(OracleError::AccountNotEnoughKeys)
    } else {
        fill_prices_spec(map, tokens, configs, prices, tokens.len())
    }
}

impl Oracle {
    /// Initialize the oracle.
    pub fn init(&mut self, bump: u8, index: u8)
        ensures
            final(self).bump == bump,
            final(self).index == index,
            final(self).primary.wf(),
            final(self).primary.view() == Map::<Address, Price>::empty(),
    {
        self.primary.clear();
        self.bump = bump;
        self.index = index;
    }

    /// Clear all prices.
    pub fn clear_all_prices(&mut self)
        ensures
            final(self).bump == old(self).bump,
            final(self).index == old(self).index,
            final(self).primary.wf(),
            final(self).primary.view() == Map::<Address, Price>::empty(),
    {
        self.primary.clear();
    }

    /// Set the prices of `tokens`, whose feeds are the first of `num_accounts` accounts;
    /// `configs[i]` is the entry of `tokens[i]` in the token map (`None` when it has none,
    /// otherwise whether it is enabled) and `prices[i]` is what reading the price of `tokens[i]`
    /// from its feed gave.
    pub fn set_prices(
        &mut self,
        tokens: &Vec<Address>,
        num_accounts: usize,
        configs: &Vec<Option<bool>>,
        prices: &Vec<Result<Price, OracleError>>,
    ) -> (r: Result<(), OracleError>)
        requires
            old(self).primary.wf(),
            prices.len() >= tokens.len(),
            configs.len() >= tokens.len(),
        ensures
            final(self).primary.wf(),
            final(self).bump == old(self).bump,
            final(self).index == old(self).index,
            match set_prices_spec(old(self).primary.view(), tokens@, num_accounts as nat, configs@, prices@) {
                Ok(m) => r is Ok && final(self).primary.view() == m,
                Err(e) => r == Err::<(), OracleError>(e),
            },
            r is Err ==> final(self).primary.view() == old(self).primary.view() || exists|k: nat|
                k < tokens.len() && #[trigger] fill_prices_spec(old(self).primary.view(), tokens@, configs@, prices@, k)
                    == Ok::<Map<Address, Price>, OracleError>(final(self).primary.view()),
    {
        if !self.primary.is_empty() {
            return Err(OracleError::PricesAlreadySet);
        }
        if tokens.len() > MAX_TOKENS {
            return Err(OracleError::ExceedMaxLengthLimit);
        }
        if tokens.len() > num_accounts {
            return Err(OracleError::AccountNotEnoughKeys);
        }
        let ghost start = self.primary.view();
        let mut i: usize = 0;
        while i < tokens.len()
            invariant
                i <= tokens.len(),
                prices.len() >= tokens.len(),
                configs.len() >= tokens.len(),
                self.primary.wf(),
                self.bump == old(self).bump,
                self.index == old(self).index,
                start == old(self).primary.view(),
                start == Map::<Address, Price>::empty(),
                tokens.len() <= MAX_TOKENS,
                tokens.len() <= num_accounts,
                fill_prices_spec(start, tokens@, configs@, prices@, i as nat) == Ok::<Map<Address, Price>, OracleError>(
                    self.primary.view(),
                ),
            decreases tokens.len() - i,
        {
            let read = match configs[i] {
                None => Err(OracleError::RequiredResourceNotFound),
                Some(enabled) => if !enabled {
                    Err(OracleError::TokenConfigDisabled)
                } else {
                    prices[i]
                },
            };
            let price = match &read {
                Ok(p) => *p,
                Err(e) => {
                    proof {
                        assert(fill_prices_spec(start, tokens@, configs@, prices@, (i + 1) as nat) == Err::<
                            Map<Address, Price>,
                            OracleError,
                        >(*e));
                        lemma_fill_error_stays(start, tokens@, configs@, prices@, (i + 1) as nat, tokens.len() as nat);
                        assert(fill_prices_spec(start, tokens@, configs@, prices@, i as nat) == Ok::<
                            Map<Address, Price>,
                            OracleError,
                        >(self.primary.view()));
                    }
                    return Err(*e);
                },
            };
            match self.primary.set(&tokens[i], price) {
                Ok(()) => {},
                Err(_) => {
                    proof {
                        assert(fill_prices_spec(start, tokens@, configs@, prices@, (i + 1) as nat) == Err::<
                            Map<Address, Price>,
                            OracleError,
                        >(OracleError::PriceAlreadySet));
                        lemma_fill_error_stays(start, tokens@, configs@, prices@, (i + 1) as nat, tokens.len() as nat);
                        assert(fill_prices_spec(start, tokens@, configs@, prices@, i as nat) == Ok::<
                            Map<Address, Price>,
                            OracleError,
                        >(self.primary.view()));
                    }
                    return Err(OracleError::PriceAlreadySet);
                },
            }
            i += 1;
        }
        Ok(())
    }
}

/// Once filling the prices fails, filling more of them fails with the same error.
proof fn lemma_fill_error_stays(
    map: Map<Address, Price>,
    tokens: Seq<Address>,
    configs: Seq<Option<bool>>,
    prices: Seq<Result<Price, OracleError>>,
    k: nat,
    n: nat,
)
    requires
        k <= n,
        fill_prices_spec(map, tokens, configs, prices, k) is Err,
    ensures
        fill_prices_spec(map, tokens, configs, prices, n) == fill_prices_spec(map, tokens, configs, prices, k),
    decreases n - k,
{
    if k < n {
        lemma_fill_error_stays(map, tokens, configs, prices, k, (n - 1) as nat);
    }
}

/// Errors of executing a deposit.
#[derive(Debug, Clone, Copy, PartialEq, Eq, Structural)]
pub enum DepositPriceError {
    /// A token of the market has no price.
    InvalidArgument,
}

/// The prices a deposit executes at: the max prices of the index, long and short tokens of the
/// market, or an error when one of them has no price.
pub fn deposit_prices(map: &PriceMap, meta: &crate::market::MarketMeta) -> (r: Result<
    crate::price::Prices,
    DepositPriceError,
>)
    requires
        map.wf(),
    ensures
        (map.view().contains_key(meta.index_token_mint) && map.view().contains_key(meta.long_token_mint)
            && map.view().contains_key(meta.short_token_mint)) ==> r == Ok::<
            crate::price::Prices,
            DepositPriceError,
        >(
            crate::price::Prices {
                index_token_price: map.view()[meta.index_token_mint].max,
                long_token_price: map.view()[meta.long_token_mint].max,
                short_token_price: map.view()[meta.short_token_mint].max,
            },
        ),
        !(map.view().contains_key(meta.index_token_mint) && map.view().contains_key(meta.long_token_mint)
            && map.view().contains_key(meta.short_token_mint)) ==> r == Err::<
            crate::price::Prices,
            DepositPriceError,
        >(DepositPriceError::InvalidArgument),
{
    let index_token_price = match map.get(&meta.index_token_mint) {
        Some(p) => p.max,
        None => return Err(DepositPriceError::InvalidArgument),
    };
    let long_token_price = match map.get(&meta.long_token_mint) {
        Some(p) => p.max,
        None => return Err(DepositPriceError::InvalidArgument),
    };
    let short_token_price = match map.get(&meta.short_token_mint) {
        Some(p) => p.max,
        None => return Err(DepositPriceError::InvalidArgument),
    };
    Ok(crate::price::Prices { index_token_price, long_token_price, short_token_price })
}

} // verus!
