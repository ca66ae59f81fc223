//! Price providers and the flat layout of tokens with their price feeds.
use vstd::prelude::*;

use crate::core_error::CoreError;
use crate::market::Address;
use crate::treasury::AccountMeta;

verus! {

/// Supported Price Provider Kind.
#[derive(Debug, Clone, Copy, PartialEq, Eq, Structural, Hash)]
pub enum PriceProviderKind {
    /// Pyth Oracle V2.
    Pyth,
    /// Chainlink Data Feed.
    Chainlink,
    /// Legacy Pyth Push Oracle for Devnet.
    PythDev,
}

/// The provider kind with the given index, if any.
pub open spec fn provider_kind_spec(v: u8) -> Option<PriceProviderKind> {
    if v == 0 {
        Some(PriceProviderKind::Pyth)
    } else if v == 1 {
        Some(PriceProviderKind::Chainlink)
    } else if v == 2 {
        Some(PriceProviderKind::PythDev)
    } else {
        None
    }
}

impl PriceProviderKind {
    /// Pyth is the default provider.
    pub fn default_kind() -> (r: Self)
        ensures
            r == PriceProviderKind::Pyth,
    {
        PriceProviderKind::Pyth
    }

    /// The provider kind with the given index, if any.
    pub fn try_from_u8(v: u8) -> (r: Option<Self>)
        ensures
            r == provider_kind_spec(v),
    {
        if v == 0 {
            Some(PriceProviderKind::Pyth)
        } else if v == 1 {
            Some(PriceProviderKind::Chainlink)
        } else if v == 2 {
            Some(PriceProviderKind::PythDev)
        } else {
            None
        }
    }
}

/// The `(provider, feed)` pairs of a flat layout, from entry `j` on with feeds taken from `start`:
/// each entry `j` gives a provider index `providers[j]` and a count `nums[j]` of feeds taken in order
/// from `feeds`. Entries with no feed are skipped; a bad provider index or running out of feeds fails.
pub open spec fn parse_feeds_spec(
    providers: Seq<u8>,
    nums: Seq<u16>,
    feeds: Seq<Address>,
    j: int,
    start: int,
) -> Result<Seq<(PriceProviderKind, Address)>, CoreError>
    decreases providers.len() - j,
{
    if j < 0 || j >= providers.len() || j >= nums.len() {
        Ok(Seq::empty())
    } else if nums[j] == 0 {
        parse_feeds_spec(providers, nums, feeds, j + 1, start)
    } else if provider_kind_spec(providers[j]) is None {
        Err(CoreError::InvalidProviderKindIndex)
    } else if start < 0 || start + nums[j] > feeds.len() {
        Err(CoreError::NotEnoughFeeds)
    } else {
        match parse_feeds_spec(providers, nums, feeds, j + 1, start + nums[j]) {
            Err(e) => Err(e),
            Ok(rest) => Ok(
                Seq::new(
                    nums[j] as nat,
                    |k: int| (provider_kind_spec(providers[j]).unwrap(), feeds[start + k]),
                ) + rest,
            ),
        }
    }
}

/// Decode the flat layout of providers, feed counts and feeds into `(provider, feed)` pairs.
pub fn parse_feeds(providers: &Vec<u8>, nums: &Vec<u16>, feeds: &Vec<Address>) -> (r: Result<
    Vec<(PriceProviderKind, Address)>,
    CoreError,
>)
    ensures
        match parse_feeds_spec(providers@, nums@, feeds@, 0, 0) {
            Ok(s) => r matches Ok(v) && v@ == s,
            Err(e) => r == Err::<Vec<(PriceProviderKind, Address)>, CoreError>(e),
        },
{
    let mut out: Vec<(PriceProviderKind, Address)> = Vec::new();
    let mut j: usize = 0;
    let mut start: usize = 0;
    while j < providers.len() && j < nums.len()
        invariant
            0 <= j <= providers@.len(),
            start <= feeds@.len(),
            parse_feeds_spec(providers@, nums@, feeds@, 0, 0) == match parse_feeds_spec(
                providers@,
                nums@,
                feeds@,
                j as int,
                start as int,
            ) {
                Ok(rest) => Ok(out@ + rest),
                Err(e) => Err(e),
            },
        decreases providers@.len() - j,
    {
        let n = nums[j];
        if n != 0 {
            let kind = match PriceProviderKind::try_from_u8(providers[j]) {
                None => return Err(CoreError::InvalidProviderKindIndex),
                Some(k) => k,
            };
            if feeds.len() - start < n as usize {
                return Err(CoreError::NotEnoughFeeds);
            }
            let ghost before = out@;
            let ghost block = Seq::new(n as nat, |k: int| (kind, feeds@[start + k]));
            let mut k: usize = 0;
            while k < n as usize
                invariant
                    k <= n,
                    start + n <= feeds@.len(),
                    feeds@.len() == feeds.len(),
                    out@ == before + block.take(k as int),
                    block == Seq::new(n as nat, |k: int| (kind, feeds@[start + k])),
                decreases n - k,
            {
                out.push((kind, feeds[start + k]));
                proof {
                    assert(block.take((k + 1) as int) =~= block.take(k as int).push(block[k as int]));
                }
                k = k + 1;
            }
            proof {
                assert(block.take(n as int) =~= block);
                let rest_spec = parse_feeds_spec(
                    providers@,
                    nums@,
                    feeds@,
                    j + 1,
                    start + n,
                );
                match rest_spec {
                    Ok(rest) => {
                        assert(before + (block + rest) =~= (before + block) + rest);
                    },
                    Err(e) => {},
                }
            }
            start = start + n as usize;
        }
        j = j + 1;
    }
    proof {
        assert(out@ + Seq::<(PriceProviderKind, Address)>::empty() =~= out@);
    }
    Ok(out)
}

/// The feeds of a flat layout, handed out one at a time.
#[derive(Debug, Clone)]
pub struct Feeds {
    /// The provider index of each group.
    pub providers: Vec<u8>,
    /// The number of feeds of each group.
    pub nums: Vec<u16>,
    /// The feeds, group after group.
    pub feeds: Vec<Address>,
    /// The group being read.
    pub group: usize,
    /// How many feeds of that group were handed out.
    pub current: usize,
    /// The position of the next feed.
    pub next_feed: usize,
    /// Whether a bad provider index was met.
    pub failed: bool,
}

/// The next item of `f` and the state after it: groups whose feeds were all handed out are
/// passed over; a bad provider index gives an error once and nothing after it; running out of
/// feeds gives an error (again on every later call); otherwise the group's provider and the next
/// feed.
pub open spec fn feeds_next_spec(f: Feeds) -> (Feeds, Option<Result<(PriceProviderKind, Address), CoreError>>)
    decreases f.providers@.len() - f.group,
{
    if f.failed || f.group >= f.providers@.len() || f.group >= f.nums@.len() {
        (f, None)
    } else if f.current >= f.nums@[f.group as int] && f.group < usize::MAX {
        feeds_next_spec(Feeds { group: (f.group + 1) as usize, current: 0, ..f })
    } else {
        match provider_kind_spec(f.providers@[f.group as int]) {
            None => (Feeds { failed: true, ..f }, Some(Err(CoreError::InvalidProviderKindIndex))),
            Some(kind) => if f.next_feed >= f.feeds@.len() {
                (f, Some(Err(CoreError::NotEnoughFeeds)))
            } else {
                (
                    Feeds { current: (f.current + 1) as usize, next_feed: (f.next_feed + 1) as usize, ..f },
                    Some(Ok((kind, f.feeds@[f.next_feed as int]))),
                )
            },
        }
    }
}

/// Two states that agree on everything but the vectors' identity hand out the same.
pub open spec fn same_feeds(a: Feeds, b: Feeds) -> bool {
    &&& a.providers@ == b.providers@
    &&& a.nums@ == b.nums@
    &&& a.feeds@ == b.feeds@
    &&& a.group == b.group
    &&& a.current == b.current
    &&& a.next_feed == b.next_feed
    &&& a.failed == b.failed
}

proof fn lemma_feeds_next_same(a: Feeds, b: Feeds)
    requires
        same_feeds(a, b),
    ensures
        same_feeds(feeds_next_spec(a).0, feeds_next_spec(b).0),
        feeds_next_spec(a).1 == feeds_next_spec(b).1,
    decreases a.providers@.len() - a.group,
{
    if !(a.failed || a.group >= a.providers@.len() || a.group >= a.nums@.len())
        && a.current >= a.nums@[a.group as int] && a.group < usize::MAX {
        lemma_feeds_next_same(
            Feeds { group: (a.group + 1) as usize, current: 0, ..a },
            Feeds { group: (b.group + 1) as usize, current: 0, ..b },
        );
    }
}

impl Feeds {
    /// Read the feeds of the given flat layout from the start.
    pub fn new(providers: Vec<u8>, nums: Vec<u16>, feeds: Vec<Address>) -> (r: Self)
        ensures
            r.providers@ == providers@,
            r.nums@ == nums@,
            r.feeds@ == feeds@,
            r.group == 0,
            r.current == 0,
            r.next_feed == 0,
            !r.failed,
    {
        Feeds { providers, nums, feeds, group: 0, current: 0, next_feed: 0, failed: false }
    }

    /// The next feed with its provider, an error, or `None` when the groups are done or after a
    /// bad provider index (see [`feeds_next_spec`]).
    pub fn next(&mut self) -> (r: Option<Result<(PriceProviderKind, Address), CoreError>>)
        ensures
            same_feeds(*final(self), feeds_next_spec(*old(self)).0),
            r == feeds_next_spec(*old(self)).1,
    {
        if self.failed {
            return None;
        }
        loop
            invariant
                !self.failed,
                same_feeds(feeds_next_spec(*self).0, feeds_next_spec(*old(self)).0),
                feeds_next_spec(*self).1 == feeds_next_spec(*old(self)).1,
                self.providers@ == old(self).providers@,
                self.nums@ == old(self).nums@,
                self.feeds@ == old(self).feeds@,
            decreases self.providers@.len() - self.group,
        {
            if self.group >= self.providers.len() || self.group >= self.nums.len() {
                return None;
            }
            if self.current >= self.nums[self.group] as usize {
                let ghost before = *self;
                self.group = self.group + 1;
                self.current = 0;
                proof {
                    lemma_feeds_next_same(
                        *self,
                        Feeds { group: (before.group + 1) as usize, current: 0, ..before },
                    );
                }
                continue;
            }
            let kind = match PriceProviderKind::try_from_u8(self.providers[self.group]) {
                None => {
                    self.failed = true;
                    return Some(Err(CoreError::InvalidProviderKindIndex));
                },
                Some(k) => k,
            };
            if self.next_feed >= self.feeds.len() {
                return Some(Err(CoreError::NotEnoughFeeds));
            }
            let feed = self.feeds[self.next_feed];
            self.current = self.current + 1;
            self.next_feed = self.next_feed + 1;
            return Some(Ok((kind, feed)));
        }
    }
}

/// Errors of turning feeds into accounts.
#[derive(Debug, Clone, Copy, PartialEq, Eq, Structural)]
pub enum FeedError {
    /// The feeds are not laid out right.
    Layout(CoreError),
    /// No account was provided for the feed.
    FeedAccountNotProvided,
}

/// The value of the first pair of `map` whose key is `key`.
pub open spec fn lookup_spec(map: Seq<(Address, Address)>, key: Address) -> Option<Address>
    decreases map.len(),
{
    if map.len() == 0 {
        None
    } else if map[0].0 == key {
        Some(map[0].1)
    } else {
        lookup_spec(map.drop_first(), key)
    }
}

/// No feed occurs twice in a map from feed to account, so the map gives each feed at most one
/// account.
pub open spec fn unique_feeds(map: Seq<(Address, Address)>) -> bool {
    forall|i: int, j: int| 0 <= i < j < map.len() ==> #[trigger] map[i].0 != #[trigger] map[j].0
}

/// With no feed listed twice, looking a feed up gives the account listed with it, wherever it
/// stands: the order of the pairs does not matter.
pub proof fn lemma_lookup_unique(map: Seq<(Address, Address)>, key: Address, i: int)
    requires
        unique_feeds(map),
        0 <= i < map.len(),
        map[i].0 == key,
    ensures
        lookup_spec(map, key) == Some(map[i].1),
    decreases map.len(),
{
    if i > 0 {
        assert(map[0].0 != map[i].0);
        let rest = map.drop_first();
        assert forall|a: int, b: int| 0 <= a < b < rest.len() implies #[trigger] rest[a].0 != #[trigger] rest[b].0 by {
            assert(rest[a] == map[a + 1] && rest[b] == map[b + 1]);
        }
        assert(rest[i - 1] == map[i]);
        lemma_lookup_unique(rest, key, i - 1);
    }
}

/// Turns the feeds of providers into the accounts that hold their prices: a provider with a map
/// from feed to account uses it, the others use the feed account itself.
#[derive(Debug, Clone)]
pub struct FeedsParser {
    /// The map from feed to account of each provider that has one.
    pub parsers: Vec<(PriceProviderKind, Vec<(Address, Address)>)>,
}

/// The map of `provider`, if it has one: the first one listed.
pub open spec fn parser_of(parsers: Seq<(PriceProviderKind, Vec<(Address, Address)>)>, provider: PriceProviderKind) -> Option<
    Seq<(Address, Address)>,
>
    decreases parsers.len(),
{
    if parsers.len() == 0 {
        None
    } else if parsers[0].0 == provider {
        Some(parsers[0].1@)
    } else {
        parser_of(parsers.drop_first(), provider)
    }
}

/// The account of a feed of `provider`, read only.
pub open spec fn dispatch_spec(
    parsers: Seq<(PriceProviderKind, Vec<(Address, Address)>)>,
    provider: PriceProviderKind,
    feed: Address,
) -> Result<AccountMeta, FeedError> {
    match parser_of(parsers, provider) {
        None => Ok(AccountMeta { pubkey: feed, is_signer: false, is_writable: false }),
        Some(map) => match lookup_spec(map, feed) {
            None => Err(FeedError::FeedAccountNotProvided),
            Some(account) => Ok(AccountMeta { pubkey: account, is_signer: false, is_writable: false }),
        },
    }
}

fn lookup(map: &Vec<(Address, Address)>, key: &Address) -> (r: Option<Address>)
    ensures
        r == lookup_spec(map@, *key),
{
    let mut i: usize = 0;
    assert(map@.skip(0) =~= map@);
    while i < map.len()
        invariant
            i <= map.len(),
            lookup_spec(map@, *key) == lookup_spec(map@.skip(i as int), *key),
        decreases map.len() - i,
    {
        proof {
            assert(map@.skip(i as int).drop_first() =~= map@.skip(i as int + 1));
        }
        if map[i].0 == *key {
            return Some(map[i].1);
        }
        i += 1;
    }
    None
}

impl FeedsParser {
    /// A parser that uses every feed account itself.
    pub fn new() -> (r: Self)
        ensures
            r.parsers@ == Seq::<(PriceProviderKind, Vec<(Address, Address)>)>::empty(),
    {
        FeedsParser { parsers: Vec::new() }
    }

    /// Use `map` for the feeds of `provider`, in place of what it used before.
    pub fn insert_pull_oracle_feed_parser(&mut self, provider: PriceProviderKind, map: Vec<(Address, Address)>)
        requires
            unique_feeds(map@),
        ensures
            final(self).parsers@ == seq![(provider, map)] + old(self).parsers@,
            parser_of(final(self).parsers@, provider) == Some(map@),
            forall|p: PriceProviderKind|
                p != provider ==> parser_of(final(self).parsers@, p) == parser_of(old(self).parsers@, p),
    {
        let mut parsers: Vec<(PriceProviderKind, Vec<(Address, Address)>)> = Vec::new();
        parsers.push((provider, map));
        let ghost old_parsers = self.parsers@;
        parsers.append(&mut self.parsers);
        self.parsers = parsers;
        proof {
            assert(self.parsers@.drop_first() =~= old_parsers);
        }
    }

    /// The account of a feed of `provider`.
    pub fn dispatch(&self, provider: &PriceProviderKind, feed: &Address) -> (r: Result<AccountMeta, FeedError>)
        ensures
            r == dispatch_spec(self.parsers@, *provider, *feed),
    {
        let mut i: usize = 0;
        assert(self.parsers@.skip(0) =~= self.parsers@);
        while i < self.parsers.len()
            invariant
                i <= self.parsers.len(),
                parser_of(self.parsers@, *provider) == parser_of(self.parsers@.skip(i as int), *provider),
            decreases self.parsers.len() - i,
        {
            proof {
                assert(self.parsers@.skip(i as int).drop_first() =~= self.parsers@.skip(i as int + 1));
            }
            if self.parsers[i].0 == *provider {
                return match lookup(&self.parsers[i].1, feed) {
                    None => Err(FeedError::FeedAccountNotProvided),
                    Some(account) => Ok(AccountMeta { pubkey: account, is_signer: false, is_writable: false }),
                };
            }
            i += 1;
        }
        Ok(AccountMeta { pubkey: *feed, is_signer: false, is_writable: false })
    }

    /// The accounts of the feeds of a flat layout of providers, feed counts and feeds, in order.
    pub fn parse(&self, providers: &Vec<u8>, nums: &Vec<u16>, feeds: &Vec<Address>) -> (r: Result<
        Vec<AccountMeta>,
        FeedError,
    >)
        ensures
            match parse_feeds_spec(providers@, nums@, feeds@, 0, 0) {
                Err(e) => r == Err::<Vec<AccountMeta>, FeedError>(FeedError::Layout(e)),
                Ok(pairs) => match r {
                    Ok(metas) => metas.len() == pairs.len() && forall|i: int|
                        0 <= i < pairs.len() ==> dispatch_spec(self.parsers@, pairs[i].0, pairs[i].1) == Ok::<
                            AccountMeta,
                            FeedError,
                        >(#[trigger] metas@[i]),
                    Err(e) => exists|i: int|
                        0 <= i < pairs.len() && #[trigger] dispatch_spec(self.parsers@, pairs[i].0, pairs[i].1) == Err::<
                            AccountMeta,
                            FeedError,
                        >(e) && forall|k: int| 0 <= k < i ==> (dispatch_spec(self.parsers@, pairs[k].0, pairs[k].1) is Ok),
                },
            },
    {
        let pairs = match parse_feeds(providers, nums, feeds) {
            Err(e) => return Err(FeedError::Layout(e)),
            Ok(p) => p,
        };
        let mut metas: Vec<AccountMeta> = Vec::new();
        let mut i: usize = 0;
        while i < pairs.len()
            invariant
                i <= pairs.len(),
                metas.len() == i,
                parse_feeds_spec(providers@, nums@, feeds@, 0, 0) == Ok::<
                    Seq<(PriceProviderKind, Address)>,
                    CoreError,
                >(pairs@),
                forall|k: int|
                    0 <= k < i ==> dispatch_spec(self.parsers@, pairs@[k].0, pairs@[k].1) == Ok::<
                        AccountMeta,
                        FeedError,
                    >(#[trigger] metas@[k]),
            decreases pairs.len() - i,
        {
            match self.dispatch(&pairs[i].0, &pairs[i].1) {
                Ok(meta) => metas.push(meta),
                Err(e) => {
                    proof {
                        assert(dispatch_spec(self.parsers@, pairs@[i as int].0, pairs@[i as int].1) == Err::<
                            AccountMeta,
                            FeedError,
                        >(e));
                        assert forall|k: int| 0 <= k < i implies (dispatch_spec(
                            self.parsers@,
                            pairs@[k].0,
                            pairs@[k].1,
                        ) is Ok) by {
                            assert(dispatch_spec(self.parsers@, pairs@[k].0, pairs@[k].1) == Ok::<
                                AccountMeta,
                                FeedError,
                            >(metas@[k]));
                        }
                    }
                    return Err(e);
                },
            }
            i += 1;
        }
        Ok(metas)
    }
}

} // verus!
