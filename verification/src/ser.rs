//! Serializable views of market data: factors in decimal text and feed ids in text.
use vstd::prelude::*;
use vstd::string::StrSliceExecFns;
use vstd::string::StringExecFns;

use crate::clock::{clock_spec, ClockKind};
use crate::feeds::PriceProviderKind;
use crate::market::Market;
use crate::pool::{pool_kind_index, pool_kind_of_index, Pool, PoolKind};

verus! {

/// The characters of a string without its underscores.
pub open spec fn strip_underscores(s: Seq<char>) -> Seq<char>
    decreases s.len(),
{
    if s.len() == 0 {
        s
    } else if s.last() == '_' {
        strip_underscores(s.drop_last())
    } else {
        strip_underscores(s.drop_last()).push(s.last())
    }
}

/// Whether a character is an ASCII decimal digit.
pub open spec fn is_digit(c: char) -> bool {
    '0' <= c && c <= '9'
}

/// The value of a string of decimal digits.
pub open spec fn digits_value(s: Seq<char>) -> int
    decreases s.len(),
{
    if s.len() == 0 {
        0
    } else {
        digits_value(s.drop_last()) * 10 + (s.last() as int - '0' as int)
    }
}

/// The digits of a number in text: an optional leading `+` and then the digits.
pub open spec fn unsigned_body(t: Seq<char>) -> Seq<char> {
    if t.len() > 0 && t[0] == '+' {
        t.drop_first()
    } else {
        t
    }
}

/// The `u128` that a text stands for once its underscores are removed: an optional `+`
/// followed by at least one decimal digit, with a value that fits.
pub open spec fn parse_factor_spec(s: Seq<char>) -> Option<u128> {
    let body = unsigned_body(strip_underscores(s));
    if body.len() == 0 || !(forall|i: int| 0 <= i < body.len() ==> is_digit(#[trigger] body[i]))
        || digits_value(body) > u128::MAX {
        None
    } else {
        Some(digits_value(body) as u128)
    }
}

/// The error of parsing a factor.
#[derive(Debug, Clone, Copy, PartialEq, Eq, Structural)]
pub struct ParseFactorError;

/// Serde Factor: a factor written as a decimal number, with `_` allowed as a separator.
#[derive(Debug, Clone, Copy, PartialEq, Eq, Structural)]
pub struct SerdeFactor(pub u128);

proof fn lemma_digits_value_nonneg(s: Seq<char>)
    requires
        forall|i: int| 0 <= i < s.len() ==> is_digit(#[trigger] s[i]),
    ensures
        digits_value(s) >= 0,
    decreases s.len(),
{
    if s.len() > 0 {
        lemma_digits_value_nonneg(s.drop_last());
    }
}

proof fn lemma_digits_value_grows(s: Seq<char>, c: char)
    requires
        forall|i: int| 0 <= i < s.len() ==> is_digit(#[trigger] s[i]),
        is_digit(c),
    ensures
        digits_value(s.push(c)) >= digits_value(s),
        digits_value(s.push(c)) == digits_value(s) * 10 + (c as int - '0' as int),
{
    assert(s.push(c).drop_last() =~= s);
    lemma_digits_value_nonneg(s);
}

proof fn lemma_digits_prefix_bound(s: Seq<char>, k: int)
    requires
        0 <= k <= s.len(),
        forall|i: int| 0 <= i < s.len() ==> is_digit(#[trigger] s[i]),
    ensures
        digits_value(s.take(k)) <= digits_value(s),
    decreases s.len() - k,
{
    if k < s.len() {
        lemma_digits_prefix_bound(s, k + 1);
        assert(s.take(k + 1) =~= s.take(k).push(s[k]));
        lemma_digits_value_grows(s.take(k), s[k]);
    } else {
        assert(s.take(k) =~= s);
    }
}

fn strip(s: &str) -> (r: Vec<char>)
    ensures
        r@ == strip_underscores(s@),
{
    let n = s.unicode_len();
    let mut out: Vec<char> = Vec::new();
    let mut i: usize = 0;
    while i < n
        invariant
            i <= n,
            n == s@.len(),
            out@ == strip_underscores(s@.take(i as int)),
        decreases n - i,
    {
        let c = s.get_char(i);
        proof {
            assert(s@.take((i + 1) as int).drop_last() =~= s@.take(i as int));
            assert(s@.take((i + 1) as int).last() == c);
        }
        if c != '_' {
            out.push(c);
        }
        i = i + 1;
    }
    proof {
        assert(s@.take(n as int) =~= s@);
    }
    out
}

impl SerdeFactor {
    /// Parse a factor from text: underscores are removed, then the text must be an unsigned
    /// decimal integer (optionally with a leading `+`) that fits in a `u128`.
    pub fn from_str(s: &str) -> (r: Result<SerdeFactor, ParseFactorError>)
        ensures
            parse_factor_spec(s@) matches Some(v) ==> r == Ok::<SerdeFactor, ParseFactorError>(SerdeFactor(v)),
            parse_factor_spec(s@) is None ==> r is Err,
    {
        let t = strip(s);
        let mut start: usize = 0;
        if t.len() > 0 && t[0] == '+' {
            start = 1;
        }
        let ghost body = unsigned_body(t@);
        proof {
            assert(body =~= t@.subrange(start as int, t@.len() as int));
        }
        if start >= t.len() {
            return Err(ParseFactorError);
        }
        let mut value: u128 = 0;
        let mut i: usize = start;
        while i < t.len()
            invariant
                start <= i <= t@.len(),
                body == t@.subrange(start as int, t@.len() as int),
                body == unsigned_body(strip_underscores(s@)),
                forall|k: int| 0 <= k < i - start ==> is_digit(#[trigger] body[k]),
                value == digits_value(body.take(i - start)),
            decreases t@.len() - i,
        {
            let c = t[i];
            if !('0' <= c && c <= '9') {
                proof {
                    assert(body[i - start] == c);
                }
                return Err(ParseFactorError);
            }
            let d = (c as u32 - '0' as u32) as u128;
            proof {
                assert(body[i - start] == c);
                assert(body.take(i + 1 - start) =~= body.take(i - start).push(c));
                assert forall|k: int| 0 <= k < i - start implies is_digit(#[trigger] body.take(i - start)[k]) by {
                    assert(body.take(i - start)[k] == body[k]);
                }
                lemma_digits_value_grows(body.take(i - start), c);
            }
            let next = match value.checked_mul(10) {
                None => {
                    proof {
                        assert forall|k: int| 0 <= k < i + 1 - start implies is_digit(#[trigger] body.take(i + 1 - start)[k]) by {
                            assert(body.take(i + 1 - start)[k] == body[k]);
                        }
                        if forall|k: int| 0 <= k < body.len() ==> is_digit(#[trigger] body[k]) {
                            lemma_digits_prefix_bound(body, i + 1 - start);
                        }
                    }
                    return Err(ParseFactorError);
                },
                Some(v) => v,
            };
            let next = match next.checked_add(d) {
                None => {
                    proof {
                        if forall|k: int| 0 <= k < body.len() ==> is_digit(#[trigger] body[k]) {
                            lemma_digits_prefix_bound(body, i + 1 - start);
                        }
                    }
                    return Err(ParseFactorError);
                },
                Some(v) => v,
            };
            value = next;
            i = i + 1;
        }
        proof {
            assert(body.take(body.len() as int) =~= body);
        }
        Ok(SerdeFactor(value))
    }
}

impl SerdeFactor {
    /// The factor in decimal text.
    pub fn to_string(&self) -> (r: String)
        ensures
            r@ == decimal_spec(self.0 as nat),
    {
        decimal_string(self.0)
    }
}

/// Parsing the decimal text of a factor gives the factor back.
pub proof fn lemma_factor_text_round_trip(factor: u128)
    ensures
        parse_factor_spec(decimal_spec(factor as nat)) == Some(factor),
{
    lemma_decimal_digits(factor as nat);
}

/// The decimal digit character of `d`.
pub open spec fn digit_char(d: int) -> char {
    ((d + '0' as int) as u32) as char
}

/// The decimal text of a number, without leading zeros.
pub open spec fn decimal_spec(v: nat) -> Seq<char>
    decreases v,
{
    if v < 10 {
        seq![digit_char(v as int)]
    } else {
        decimal_spec(v / 10).push(digit_char((v % 10) as int))
    }
}

fn digit_str(d: u128) -> (r: &'static str)
    requires
        d < 10,
    ensures
        r@ == seq![digit_char(d as int)],
{
    proof {
        reveal_strlit("0");
        reveal_strlit("1");
        reveal_strlit("2");
        reveal_strlit("3");
        reveal_strlit("4");
        reveal_strlit("5");
        reveal_strlit("6");
        reveal_strlit("7");
        reveal_strlit("8");
        reveal_strlit("9");
    }
    if d == 0 {
        "0"
    } else if d == 1 {
        "1"
    } else if d == 2 {
        "2"
    } else if d == 3 {
        "3"
    } else if d == 4 {
        "4"
    } else if d == 5 {
        "5"
    } else if d == 6 {
        "6"
    } else if d == 7 {
        "7"
    } else if d == 8 {
        "8"
    } else {
        "9"
    }
}

fn decimal_string(v: u128) -> (r: String)
    ensures
        r@ == decimal_spec(v as nat),
    decreases v,
{
    if v < 10 {
        String::from_str(digit_str(v))
    } else {
        let mut s = decimal_string(v / 10);
        s.append(digit_str(v % 10));
        s
    }
}

/// The decimal text of a number has no underscore, does not start with `+`, is made of digits
/// and has the number as its value.
proof fn lemma_decimal_digits(v: nat)
    ensures
        decimal_spec(v).len() > 0,
        strip_underscores(decimal_spec(v)) == decimal_spec(v),
        decimal_spec(v)[0] != '+',
        forall|i: int| 0 <= i < decimal_spec(v).len() ==> is_digit(#[trigger] decimal_spec(v)[i]),
        digits_value(decimal_spec(v)) == v,
    decreases v,
{
    if v >= 10 {
        lemma_decimal_digits(v / 10);
        let d = decimal_spec(v);
        assert(d.drop_last() == decimal_spec(v / 10));
        assert(d.last() == digit_char((v % 10) as int));
        assert(digit_char((v % 10) as int) as int - '0' as int == v % 10);
        assert((v / 10) * 10 + v % 10 == v) by (nonlinear_arith);
        assert(digits_value(d) == digits_value(d.drop_last()) * 10 + (d.last() as int - '0' as int));
    } else {
        let d = decimal_spec(v);
        assert(d.drop_last() =~= Seq::<char>::empty());
        assert(digit_char(v as int) as int - '0' as int == v);
        assert(digits_value(d) == digits_value(d.drop_last()) * 10 + (d.last() as int - '0' as int));
        assert(strip_underscores(Seq::<char>::empty()) == Seq::<char>::empty());
    }
}

/// Encoding of a feed id in text.
#[derive(Debug, Clone, Copy, PartialEq, Eq, Structural)]
pub enum Encoding {
    /// Hex.
    Hex,
    /// Base58,
    Base58,
}

/// Serializable Feed Config.
#[derive(Debug, Clone)]
pub struct SerializeFeedConfig {
    /// Feed ID
    pub feed_id: String,
    /// The encoding type of Feed ID.
    pub feed_id_encoding: Encoding,
    /// Timestamp adjustment.
    pub timestamp_adjustment: u32,
}

/// The lowercase hex digit of a nibble.
pub open spec fn hex_digit(n: int) -> char {
    if n < 10 {
        ((n + '0' as int) as u32) as char
    } else {
        ((n - 10 + 'a' as int) as u32) as char
    }
}

/// Lowercase hex text of bytes: two digits per byte, high nibble first.
pub open spec fn hex_spec(bytes: Seq<u8>) -> Seq<char> {
    Seq::new(
        2 * bytes.len(),
        |i: int|
            if i % 2 == 0 {
                hex_digit(bytes[i / 2] as int / 16)
            } else {
                hex_digit(bytes[i / 2] as int % 16)
            },
    )
}

/// The base58 text of bytes (bitcoin alphabet), as computed by the `bs58` crate.
pub uninterp spec fn base58_spec(bytes: Seq<u8>) -> Seq<char>;

/// Calls `hex::encode`: lowercase hex text of the bytes, two digits per byte, high nibble first.
#[verifier::external_body]
pub(crate) fn hex_encode(bytes: &[u8]) -> (r: String)
    ensures
        r@ == hex_spec(bytes@),
{
    hex::encode(bytes)
}

/// Calls `bs58::encode(..).into_string()`: the base58 text of the bytes. Nothing beyond the name
/// of its result is stated.
#[verifier::external_body]
fn base58_encode(bytes: &[u8]) -> (r: String)
    ensures
        r@ == base58_spec(bytes@),
{
    bs58::encode(bytes).into_string()
}

impl SerializeFeedConfig {
    /// Create with provider hint: a pyth feed id is written in hex, others in base58.
    pub fn with_hint(kind: &PriceProviderKind, feed: &[u8], timestamp_adjustment: u32) -> (r: Self)
        ensures
            *kind == PriceProviderKind::Pyth ==> r.feed_id@ == hex_spec(feed@) && r.feed_id_encoding
                == Encoding::Hex,
            *kind != PriceProviderKind::Pyth ==> r.feed_id@ == base58_spec(feed@) && r.feed_id_encoding
                == Encoding::Base58,
            r.timestamp_adjustment == timestamp_adjustment,
    {
        match kind {
            PriceProviderKind::Pyth => SerializeFeedConfig {
                feed_id_encoding: Encoding::Hex,
                feed_id: hex_encode(feed),
                timestamp_adjustment,
            },
            _ => SerializeFeedConfig {
                feed_id_encoding: Encoding::Base58,
                feed_id: base58_encode(feed),
                timestamp_adjustment,
            },
        }
    }

    /// Get formatted feed id: a hex feed id is prefixed with `0x`.
    pub fn formatted_feed_id(&self) -> (r: String)
        ensures
            self.feed_id_encoding == Encoding::Hex ==> r@ == "0x"@ + self.feed_id@,
            self.feed_id_encoding == Encoding::Base58 ==> r@ == self.feed_id@,
    {
        match self.feed_id_encoding {
            Encoding::Hex => {
                let mut s = String::from_str("0x");
                s.append(self.feed_id.as_str());
                s
            },
            Encoding::Base58 => self.feed_id.clone(),
        }
    }
}

/// Serializable market state.
#[derive(Debug, Clone, Copy, PartialEq, Eq, Structural)]
pub struct SerializeMarketState {
    /// Long token balance.
    pub long_token_balance: u64,
    /// Short token balance.
    pub short_token_balance: u64,
    /// Funding factor per second.
    pub funding_factor_per_second: i128,
    /// Deposit count.
    pub deposit_count: u64,
    /// Withdrawal count.
    pub withdrawal_count: u64,
    /// Order count.
    pub order_count: u64,
}

impl SerializeMarketState {
    /// The serializable view of a market's state.
    pub fn from_state(state: &crate::market::MarketState) -> (r: Self)
        ensures
            r == (SerializeMarketState {
                long_token_balance: state.long_token_balance,
                short_token_balance: state.short_token_balance,
                funding_factor_per_second: state.funding_factor_per_second,
                deposit_count: state.deposit_count,
                withdrawal_count: state.withdrawal_count,
                order_count: state.order_count,
            }),
    {
        SerializeMarketState {
            long_token_balance: state.long_token_balance_raw(),
            short_token_balance: state.short_token_balance_raw(),
            funding_factor_per_second: state.funding_factor_per_second(),
            deposit_count: state.deposit_count(),
            withdrawal_count: state.withdrawal_count(),
            order_count: state.order_count(),
        }
    }
}

/// The clock kinds, in declaration order.
pub open spec fn clock_kind_of_index(i: int) -> ClockKind {
    if i == 0 {
        ClockKind::PriceImpactDistribution
    } else if i == 1 {
        ClockKind::Borrowing
    } else if i == 2 {
        ClockKind::Funding
    } else if i == 3 {
        ClockKind::AdlForLong
    } else {
        ClockKind::AdlForShort
    }
}

/// The pools of a market listed by kind, in the declaration order of the kinds.
pub fn market_pools(market: &Market) -> (r: Vec<(PoolKind, Pool)>)
    ensures
        r.len() == 16,
        forall|i: int|
            0 <= i < 16 ==> #[trigger] r@[i] == (pool_kind_of_index(i), market.pools.pool_of(pool_kind_of_index(i))),
{
    let mut r: Vec<(PoolKind, Pool)> = Vec::new();
    let mut i: u8 = 0;
    while i < 16
        invariant
            i <= 16,
            r.len() == i,
            forall|j: int|
                0 <= j < i ==> #[trigger] r@[j] == (pool_kind_of_index(j), market.pools.pool_of(pool_kind_of_index(j))),
        decreases 16 - i,
    {
        let kind = PoolKind::try_from_u8(i).unwrap();
        proof {
            assert(pool_kind_index(kind) == i);
            assert(kind == pool_kind_of_index(i as int));
        }
        if let Some(pool) = market.pool(kind) {
            r.push((kind, pool));
        }
        i += 1;
    }
    r
}

/// The clocks of a market listed by kind, in the declaration order of the kinds.
pub fn market_clocks(market: &Market) -> (r: Vec<(ClockKind, i64)>)
    ensures
        r.len() == 5,
        forall|i: int|
            0 <= i < 5 ==> #[trigger] r@[i] == (clock_kind_of_index(i), clock_spec(market.clocks, clock_kind_of_index(i))),
{
    let kinds = [
        ClockKind::PriceImpactDistribution,
        ClockKind::Borrowing,
        ClockKind::Funding,
        ClockKind::AdlForLong,
        ClockKind::AdlForShort,
    ];
    let mut r: Vec<(ClockKind, i64)> = Vec::new();
    let mut i: usize = 0;
    while i < 5
        invariant
            i <= 5,
            r.len() == i,
            kinds@ == seq![
                ClockKind::PriceImpactDistribution,
                ClockKind::Borrowing,
                ClockKind::Funding,
                ClockKind::AdlForLong,
                ClockKind::AdlForShort,
            ],
            forall|j: int|
                0 <= j < i ==> #[trigger] r@[j] == (clock_kind_of_index(j), clock_spec(market.clocks, clock_kind_of_index(j))),
        decreases 5 - i,
    {
        let kind = kinds[i];
        if let Some(clock) = market.clock(kind) {
            r.push((kind, clock));
        }
        i += 1;
    }
    r
}

} // verus!
