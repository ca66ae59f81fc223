//! Planning the transactions that post Pyth price updates: updates are merged by feed, each VAA
//! that proves them is written once, and the price of each requested feed is posted against the
//! VAA that proves it.
use vstd::prelude::*;

verus! {

/// Where a VAA is split between the two instructions that write it.
pub const VAA_SPLIT_INDEX: usize = 755;

/// A 32-byte Pyth price feed identifier, as two big-endian halves.
#[derive(Debug, Clone, Copy, PartialEq, Eq, Structural, Hash)]
pub struct Identifier {
    /// The first 16 bytes.
    pub hi: u128,
    /// The last 16 bytes.
    pub lo: u128,
}

/// The 32 bytes of an identifier, big-endian.
pub open spec fn identifier_bytes(id: Identifier) -> Seq<u8> {
    Seq::new(
        32,
        |i: int|
            if i < 16 {
                ((id.hi >> ((8 * (15 - i)) as u32)) & 0xff) as u8
            } else {
                ((id.lo >> ((8 * (31 - i)) as u32)) & 0xff) as u8
            },
    )
}

impl Identifier {
    /// The 32 bytes of the identifier, big-endian.
    pub fn to_bytes(&self) -> (r: Vec<u8>)
        ensures
            r@ == identifier_bytes(*self),
    {
        let mut bytes: Vec<u8> = Vec::new();
        let mut k: u32 = 0;
        while k < 32
            invariant
                k <= 32,
                bytes@.len() == k,
                forall|i: int| 0 <= i < k ==> bytes@[i] == #[trigger] identifier_bytes(*self)[i],
            decreases 32 - k,
        {
            let b = if k < 16 {
                ((self.hi >> (8 * (15 - k))) & 0xff) as u8
            } else {
                ((self.lo >> (8 * (31 - k))) & 0xff) as u8
            };
            bytes.push(b);
            k += 1;
        }
        assert(bytes@ =~= identifier_bytes(*self));
        bytes
    }
}

/// A price update of one feed, as parsed out of an accumulator update: the feed it is for and the
/// VAA that proves it.
#[derive(Debug, Clone, PartialEq, Eq)]
pub struct FeedPriceUpdate {
    /// The feed of the update.
    pub feed_id: Identifier,
    /// The VAA whose merkle root proves the update.
    pub vaa: Vec<u8>,
}

/// The plan of the transactions that post a list of price updates.
#[derive(Debug, Clone, PartialEq, Eq)]
pub struct PostPlan {
    /// The VAAs to write, each given by the index of an update that carries it.
    pub vaas: Vec<usize>,
    /// The prices to post: the index of each update to post and the position in `vaas` of the
    /// VAA that proves it.
    pub posts: Vec<(usize, usize)>,
}

/// Update `i` is the last update of its feed: later updates of the same feed replace earlier ones.
pub open spec fn is_merged(updates: Seq<FeedPriceUpdate>, i: int) -> bool {
    &&& 0 <= i < updates.len()
    &&& forall|j: int| i < j < updates.len() ==> #[trigger] updates[j].feed_id != updates[i].feed_id
}

/// Update `i` is merged and no earlier merged update carries the same VAA.
pub open spec fn is_first_of_vaa(updates: Seq<FeedPriceUpdate>, i: int) -> bool {
    &&& is_merged(updates, i)
    &&& forall|j: int| 0 <= j < i && is_merged(updates, j) ==> #[trigger] updates[j].vaa@ != updates[i].vaa@
}

/// Update `i` is merged and its feed is one of the requested feeds.
pub open spec fn is_posted(updates: Seq<FeedPriceUpdate>, requested: Seq<Identifier>, i: int) -> bool {
    is_merged(updates, i) && requested.contains(updates[i].feed_id)
}

/// The indices in `s` are strictly increasing.
pub open spec fn increasing(s: Seq<usize>) -> bool {
    forall|a: int, b: int| 0 <= a < b < s.len() ==> s[a] < s[b]
}

/// `plan` writes, in the order of the updates, the VAA of each merged update that no earlier merged
/// update carries, and posts, in the order of the updates, each merged update of a requested feed
/// against the written VAA that equals its own.
pub open spec fn post_plan_spec(updates: Seq<FeedPriceUpdate>, requested: Seq<Identifier>, plan: PostPlan) -> bool {
    let vaas = plan.vaas@;
    let posts = plan.posts@;
    &&& increasing(vaas)
    &&& forall|k: int| 0 <= k < vaas.len() ==> is_first_of_vaa(updates, #[trigger] vaas[k] as int)
    &&& forall|i: int| is_first_of_vaa(updates, i) ==> #[trigger] vaas.contains(i as usize)
    &&& forall|a: int, b: int| 0 <= a < b < posts.len() ==> posts[a].0 < posts[b].0
    &&& forall|k: int|
        0 <= k < posts.len() ==> {
            &&& is_posted(updates, requested, #[trigger] posts[k].0 as int)
            &&& posts[k].1 < vaas.len()
            &&& updates[vaas[posts[k].1 as int] as int].vaa@ == updates[posts[k].0 as int].vaa@
        }
    &&& forall|i: int|
        is_posted(updates, requested, i) ==> exists|k: int| 0 <= k < posts.len() && #[trigger] posts[k].0 == i
}

/// Whether two byte strings are equal.
pub fn bytes_eq(a: &Vec<u8>, b: &Vec<u8>) -> (r: bool)
    ensures
        r == (a@ == b@),
{
    if a.len() != b.len() {
        return false;
    }
    let mut i: usize = 0;
    while i < a.len()
        invariant
            a.len() == b.len(),
            i <= a.len(),
            forall|j: int| 0 <= j < i ==> a@[j] == b@[j],
        decreases a.len() - i,
    {
        if a[i] != b[i] {
            return false;
        }
        i += 1;
    }
    assert(a@ =~= b@);
    true
}

fn is_last_of_feed(updates: &Vec<FeedPriceUpdate>, i: usize) -> (r: bool)
    requires
        i < updates.len(),
    ensures
        r == is_merged(updates@, i as int),
{
    let mut j: usize = i + 1;
    while j < updates.len()
        invariant
            i < j <= updates.len(),
            forall|l: int| i < l < j ==> #[trigger] updates@[l].feed_id != updates@[i as int].feed_id,
        decreases updates.len() - j,
    {
        if updates[j].feed_id == updates[i].feed_id {
            return false;
        }
        j += 1;
    }
    true
}

fn find_vaa(updates: &Vec<FeedPriceUpdate>, vaas: &Vec<usize>, i: usize) -> (r: Option<usize>)
    requires
        i < updates.len(),
        forall|k: int| 0 <= k < vaas.len() ==> #[trigger] vaas@[k] < updates.len(),
    ensures
        match r {
            Some(s) => s < vaas.len() && updates@[vaas@[s as int] as int].vaa@ == updates@[i as int].vaa@,
            None => forall|k: int|
                0 <= k < vaas.len() ==> #[trigger] updates@[vaas@[k] as int].vaa@ != updates@[i as int].vaa@,
        },
{
    let mut slot: usize = 0;
    while slot < vaas.len()
        invariant
            i < updates.len(),
            slot <= vaas.len(),
            forall|k: int| 0 <= k < vaas.len() ==> #[trigger] vaas@[k] < updates.len(),
            forall|k: int| 0 <= k < slot ==> #[trigger] updates@[vaas@[k] as int].vaa@ != updates@[i as int].vaa@,
        decreases vaas.len() - slot,
    {
        if bytes_eq(&updates[vaas[slot]].vaa, &updates[i].vaa) {
            return Some(slot);
        }
        slot += 1;
    }
    None
}

fn contains_id(ids: &Vec<Identifier>, id: Identifier) -> (r: bool)
    ensures
        r == ids@.contains(id),
{
    let mut k: usize = 0;
    while k < ids.len()
        invariant
            k <= ids.len(),
            forall|l: int| 0 <= l < k ==> ids@[l] != id,
        decreases ids.len() - k,
    {
        if ids[k] == id {
            return true;
        }
        k += 1;
    }
    false
}

/// Plan the transactions that post `updates`: merge them by feed, write each VAA once, and post
/// the prices of the `requested` feeds. Each VAA that is written must be long enough to be split
/// between its two write instructions.
#[verifier::spinoff_prover]
pub fn plan_price_updates(updates: &Vec<FeedPriceUpdate>, requested: &Vec<Identifier>) -> (r: PostPlan)
    requires
        forall|i: int| is_merged(updates@, i) ==> #[trigger] updates@[i].vaa.len() >= VAA_SPLIT_INDEX,
    ensures
        post_plan_spec(updates@, requested@, r),
        forall|k: int| 0 <= k < r.vaas.len() ==> updates@[#[trigger] r.vaas@[k] as int].vaa.len() >= VAA_SPLIT_INDEX,
{
    let mut vaas: Vec<usize> = Vec::new();
    let mut posts: Vec<(usize, usize)> = Vec::new();
    let n = updates.len();
    let mut i: usize = 0;
    while i < n
        invariant
            n == updates.len(),
            i <= n,
            increasing(vaas@),
            forall|k: int| 0 <= k < vaas.len() ==> #[trigger] vaas@[k] < i,
            forall|k: int| 0 <= k < vaas.len() ==> is_first_of_vaa(updates@, #[trigger] vaas@[k] as int),
            forall|l: int| 0 <= l < i && is_first_of_vaa(updates@, l) ==> #[trigger] vaas@.contains(l as usize),
            forall|l: int|
                0 <= l < i && is_merged(updates@, l) ==> exists|k: int|
                    0 <= k < vaas.len() && #[trigger] updates@[vaas@[k] as int].vaa@ == updates@[l].vaa@,
            forall|a: int, b: int| 0 <= a < b < posts.len() ==> posts@[a].0 < posts@[b].0,
            forall|k: int| 0 <= k < posts.len() ==> #[trigger] posts@[k].0 < i,
            forall|k: int|
                0 <= k < posts.len() ==> {
                    &&& is_posted(updates@, requested@, #[trigger] posts@[k].0 as int)
                    &&& posts@[k].1 < vaas.len()
                    &&& updates@[vaas@[posts@[k].1 as int] as int].vaa@ == updates@[posts@[k].0 as int].vaa@
                },
            forall|l: int|
                0 <= l < i && is_posted(updates@, requested@, l) ==> exists|k: int|
                    0 <= k < posts.len() && #[trigger] posts@[k].0 == l,
        decreases n - i,
    {
        let ghost old_vaas = vaas@;
        let ghost old_posts = posts@;
        let ghost mut witness: int = 0;
        if is_last_of_feed(updates, i) {
            let found = find_vaa(updates, &vaas, i);
            let slot = match found {
                Some(s) => {
                    proof {
                        assert(!is_first_of_vaa(updates@, i as int)) by {
                            assert(is_merged(updates@, vaas@[s as int] as int));
                        }
                        witness = s as int;
                    }
                    s
                },
                None => {
                    proof {
                        assert forall|j: int| 0 <= j < i && is_merged(updates@, j) implies #[trigger] updates@[j].vaa@
                            != updates@[i as int].vaa@ by {
                            let k = choose|k: int|
                                0 <= k < vaas.len() && #[trigger] updates@[vaas@[k] as int].vaa@ == updates@[j].vaa@;
                            assert(updates@[vaas@[k] as int].vaa@ != updates@[i as int].vaa@);
                        }
                    }
                    vaas.push(i);
                    proof {
                        assert(vaas@[vaas.len() - 1] == i);
                        witness = vaas.len() - 1;
                    }
                    vaas.len() - 1
                },
            };
            if contains_id(requested, updates[i].feed_id) {
                posts.push((i, slot));
                proof {
                    assert(posts@[posts.len() - 1] == (i, slot));
                    assert(slot as int == witness);
                    assert(is_posted(updates@, requested@, i as int));
                    assert(updates@[vaas@[witness] as int].vaa@ == updates@[i as int].vaa@);
                }
            }
        }
        proof {
            assert(vaas@ == old_vaas || vaas@ == old_vaas.push(i));
            assert(posts@ == old_posts || posts@ == old_posts.push((i, posts@.last().1)));
            assert forall|k: int| 0 <= k < posts.len() implies {
                &&& is_posted(updates@, requested@, #[trigger] posts@[k].0 as int)
                &&& posts@[k].1 < vaas.len()
                &&& updates@[vaas@[posts@[k].1 as int] as int].vaa@ == updates@[posts@[k].0 as int].vaa@
            } by {
                if k < old_posts.len() {
                    assert(posts@[k] == old_posts[k]);
                    let s = old_posts[k].1 as int;
                    assert(is_posted(updates@, requested@, old_posts[k].0 as int));
                    assert(s < old_vaas.len());
                    assert(vaas@[s] == old_vaas[s]);
                }
            }
            assert forall|l: int| 0 <= l < i + 1 && is_first_of_vaa(updates@, l) implies #[trigger] vaas@.contains(
                l as usize,
            ) by {
                if l < i {
                    assert(old_vaas.contains(l as usize));
                    let idx = choose|idx: int| 0 <= idx < old_vaas.len() && old_vaas[idx] == l as usize;
                    assert(vaas@[idx] == l as usize);
                } else {
                    assert(vaas@[vaas.len() - 1] == i);
                }
            }
            assert forall|l: int| 0 <= l < i + 1 && is_merged(updates@, l) implies exists|k: int|
                0 <= k < vaas.len() && #[trigger] updates@[vaas@[k] as int].vaa@ == updates@[l].vaa@ by {
                if l < i {
                    let k = choose|k: int|
                        0 <= k < old_vaas.len() && #[trigger] updates@[old_vaas[k] as int].vaa@ == updates@[l].vaa@;
                    assert(vaas@[k] == old_vaas[k]);
                    assert(updates@[vaas@[k] as int].vaa@ == updates@[l].vaa@);
                } else {
                    assert(updates@[vaas@[witness] as int].vaa@ == updates@[l].vaa@);
                }
            }
            assert forall|l: int| 0 <= l < i + 1 && is_posted(updates@, requested@, l) implies exists|k: int|
                0 <= k < posts.len() && #[trigger] posts@[k].0 == l by {
                if l < i {
                    let k = choose|k: int| 0 <= k < old_posts.len() && #[trigger] old_posts[k].0 == l;
                    assert(posts@[k].0 == l);
                } else {
                    assert(posts@[posts.len() - 1].0 == i);
                }
            }
        }
        i += 1;
    }
    proof {
        assert forall|l: int| is_first_of_vaa(updates@, l) implies #[trigger] vaas@.contains(l as usize) by {
            assert(0 <= l < n);
        }
        assert forall|l: int| is_posted(updates@, requested@, l) implies exists|k: int|
            0 <= k < posts.len() && #[trigger] posts@[k].0 == l by {
            assert(0 <= l < n);
            let k = choose|k: int| 0 <= k < posts.len() && #[trigger] posts@[k].0 == l;
            assert(posts@[k].0 == l);
        }
    }
    PostPlan { vaas, posts }
}

/// A plan posts the price of each feed at most once, and writes each VAA at most once.
pub proof fn lemma_plan_posts_each_feed_once(
    updates: Seq<FeedPriceUpdate>,
    requested: Seq<Identifier>,
    plan: PostPlan,
    a: int,
    b: int,
)
    requires
        post_plan_spec(updates, requested, plan),
        0 <= a < b,
    ensures
        b < plan.posts.len() ==> updates[plan.posts@[a].0 as int].feed_id != updates[plan.posts@[b].0 as int].feed_id,
        b < plan.vaas.len() ==> updates[plan.vaas@[a] as int].vaa@ != updates[plan.vaas@[b] as int].vaa@,
{
    if b < plan.posts.len() {
        let i = plan.posts@[a].0 as int;
        let j = plan.posts@[b].0 as int;
        assert(is_posted(updates, requested, i));
        assert(i < j);
        assert(j < updates.len()) by {
            assert(is_posted(updates, requested, j));
        }
        assert(updates[j].feed_id != updates[i].feed_id);
    }
    if b < plan.vaas.len() {
        let i = plan.vaas@[a] as int;
        let j = plan.vaas@[b] as int;
        assert(is_first_of_vaa(updates, i));
        assert(is_first_of_vaa(updates, j));
        assert(i < j);
        assert(updates[i].vaa@ != updates[j].vaa@);
    }
}

/// The two parts in which a VAA is written: the bytes before the split index, written at offset
/// zero, and the rest, written at the split index.
pub fn split_vaa(vaa: &Vec<u8>) -> (r: (Vec<u8>, Vec<u8>))
    requires
        vaa.len() >= VAA_SPLIT_INDEX,
    ensures
        r.0@ == vaa@.subrange(0, VAA_SPLIT_INDEX as int),
        r.1@ == vaa@.subrange(VAA_SPLIT_INDEX as int, vaa.len() as int),
        r.0@ + r.1@ == vaa@,
{
    let mut first: Vec<u8> = Vec::new();
    let mut second: Vec<u8> = Vec::new();
    let mut i: usize = 0;
    while i < vaa.len()
        invariant
            vaa.len() >= VAA_SPLIT_INDEX,
            i <= vaa.len(),
            i <= VAA_SPLIT_INDEX ==> first@ == vaa@.subrange(0, i as int) && second@.len() == 0,
            i > VAA_SPLIT_INDEX ==> first@ == vaa@.subrange(0, VAA_SPLIT_INDEX as int) && second@
                == vaa@.subrange(VAA_SPLIT_INDEX as int, i as int),
        decreases vaa.len() - i,
    {
        if i < VAA_SPLIT_INDEX {
            first.push(vaa[i]);
        } else {
            second.push(vaa[i]);
        }
        i += 1;
    }
    assert(first@ + second@ =~= vaa@);
    (first, second)
}

/// How sending the post and close transactions failed.
#[derive(Debug, Clone, PartialEq, Eq)]
pub enum SendFailure<E> {
    /// Sending the post transactions failed.
    Post(E),
    /// Sending the close transactions failed.
    Close(E),
    /// Both failed.
    Both(E, E),
}

/// The outcome of sending the post transactions and then the close transactions: the signatures
/// of both, in that order, and the failure of either or both.
pub fn combine_send_results<S, E>(post: (Vec<S>, Option<E>), close: (Vec<S>, Option<E>)) -> (r: Result<
    Vec<S>,
    (Vec<S>, SendFailure<E>),
>)
    ensures
        match r {
            Ok(signatures) => signatures@ == post.0@ + close.0@ && post.1 is None && close.1 is None,
            Err((signatures, failure)) => signatures@ == post.0@ + close.0@ && match (post.1, close.1) {
                (Some(a), Some(b)) => failure == SendFailure::Both(a, b),
                (Some(a), None) => failure == SendFailure::<E>::Post(a),
                (None, Some(b)) => failure == SendFailure::<E>::Close(b),
                (None, None) => false,
            },
        },
{
    let (mut signatures, post_error) = post;
    let (mut close_signatures, close_error) = close;
    signatures.append(&mut close_signatures);
    match (post_error, close_error) {
        (None, None) => Ok(signatures),
        (Some(a), None) => Err((signatures, SendFailure::Post(a))),
        (None, Some(b)) => Err((signatures, SendFailure::Close(b))),
        (Some(a), Some(b)) => Err((signatures, SendFailure::Both(a, b))),
    }
}

/// The instructions that post price updates and those that close the accounts they used.
#[derive(Debug, Clone)]
pub struct PriceUpdateInstructions<I> {
    /// Instructions that post the price updates.
    pub post: Vec<I>,
    /// Instructions that close the accounts afterwards.
    pub close: Vec<I>,
}

impl<I> PriceUpdateInstructions<I> {
    /// Create a new empty price update instructions.
    pub fn new() -> (r: Self)
        ensures
            r.post@ == Seq::<I>::empty(),
            r.close@ == Seq::<I>::empty(),
    {
        PriceUpdateInstructions { post: Vec::new(), close: Vec::new() }
    }

    /// Push a post price update instruction.
    pub fn try_push_post(&mut self, instruction: I) -> (r: Result<(), I>)
        ensures
            r is Ok,
            final(self).post@ == old(self).post@.push(instruction),
            final(self).close@ == old(self).close@,
    {
        self.post.push(instruction);
        Ok(())
    }

    /// Push a close instruction.
    pub fn try_push_close(&mut self, instruction: I) -> (r: Result<(), I>)
        ensures
            r is Ok,
            final(self).close@ == old(self).close@.push(instruction),
            final(self).post@ == old(self).post@,
    {
        self.close.push(instruction);
        Ok(())
    }

    /// The instructions of a transaction that consumes the prices: the posts, then what consumes
    /// them, then the closes.
    pub fn with_consume(self, consume: Vec<I>) -> (r: Vec<I>)
        ensures
            r@ == self.post@ + consume@ + self.close@,
    {
        let mut tx = self.post;
        let mut consume = consume;
        let mut close = self.close;
        tx.append(&mut consume);
        tx.append(&mut close);
        tx
    }
}

/// The transactions that post prices and consume them, and the transactions that close the
/// accounts they used.
#[derive(Debug, Clone)]
pub struct WithPythPrices<T> {
    /// Transactions that post the prices and consume them.
    pub post: Vec<T>,
    /// Transactions that close the accounts afterwards.
    pub close: Vec<T>,
}

impl<T> WithPythPrices<T> {
    /// The execution fee of the post and close transactions together, from the fee of each,
    /// saturating.
    pub fn estimated_execution_fee(post_fee: u64, close_fee: u64) -> (r: u64)
        ensures
            r == if post_fee + close_fee > u64::MAX {
                u64::MAX as int
            } else {
                post_fee + close_fee
            },
    {
        post_fee.saturating_add(close_fee)
    }
}

/// What to do once the transactions with the price updates are built.
#[derive(Debug, Clone, Copy, PartialEq, Eq, Structural)]
pub enum AfterBuild {
    /// Estimate the execution fee, set it, and build again.
    EstimateFeeAndRebuild,
    /// Send the transactions.
    Execute,
}

/// The loop that executes with Pyth price updates: the transactions are built, then either sent
/// or, the first time when the fee is still to be estimated, built again with the estimated fee.
#[derive(Debug, Clone, Copy, PartialEq, Eq, Structural)]
pub struct PythExecution {
    /// Whether the execution fee counts as estimated.
    pub execution_fee_estimated: bool,
}

/// The state and step after a build.
pub open spec fn after_build_spec(s: PythExecution) -> (PythExecution, AfterBuild) {
    if s.execution_fee_estimated {
        (s, AfterBuild::Execute)
    } else {
        (PythExecution { execution_fee_estimated: true }, AfterBuild::EstimateFeeAndRebuild)
    }
}

impl PythExecution {
    /// Start the loop; the fee counts as estimated when `estimate_execution_fee` is set.
    pub fn new(estimate_execution_fee: bool) -> (r: Self)
        ensures
            r.execution_fee_estimated == estimate_execution_fee,
    {
        PythExecution { execution_fee_estimated: estimate_execution_fee }
    }

    /// The step after a build.
    pub fn after_build(&mut self) -> (r: AfterBuild)
        ensures
            (*final(self), r) == after_build_spec(*old(self)),
    {
        if self.execution_fee_estimated {
            AfterBuild::Execute
        } else {
            self.execution_fee_estimated = true;
            AfterBuild::EstimateFeeAndRebuild
        }
    }
}

/// The loop builds at most twice: whatever the start, the step after the second build is to
/// execute.
pub proof fn lemma_at_most_two_builds(start: PythExecution)
    ensures
        after_build_spec(after_build_spec(start).0).1 == AfterBuild::Execute,
{
}

} // verus!
