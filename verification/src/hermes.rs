//! Price updates as served by a Hermes price service.
use vstd::prelude::*;
use vstd::string::StringExecFns;

use crate::pull_oracle::{identifier_bytes, Identifier};
use crate::ser::{hex_encode, hex_spec};

verus! {

/// Encoding of binary price update data.
#[derive(Debug, Clone, Copy, PartialEq, Eq, Structural)]
pub enum EncodingType {
    /// Hex.
    Hex,
    /// Base64.
    Base64,
}

impl EncodingType {
    /// Hex is the default encoding.
    pub fn default_encoding() -> (r: Self)
        ensures
            r == EncodingType::Hex,
    {
        EncodingType::Hex
    }

    /// The name of the encoding, as used in queries.
    pub fn as_str(&self) -> (r: &'static str)
        ensures
            *self == EncodingType::Hex ==> r@ == "hex"@,
            *self == EncodingType::Base64 ==> r@ == "base64"@,
    {
        match self {
            EncodingType::Hex => "hex",
            EncodingType::Base64 => "base64",
        }
    }
}

/// A price with its confidence and exponent.
#[derive(Debug, Clone, Copy, PartialEq, Eq, Structural)]
pub struct Price {
    /// Price.
    pub price: i64,
    /// Confidence.
    pub conf: u64,
    /// Exponent.
    pub expo: i32,
    /// Publish time.
    pub publish_time: i64,
}

/// Metadata of a price update.
#[derive(Debug, Clone, Copy, PartialEq, Eq, Structural)]
pub struct Metadata {
    /// Slot.
    pub slot: Option<u64>,
    /// Proof available time.
    pub proof_available_time: Option<i64>,
    /// Previous publish time.
    pub prev_publish_time: Option<i64>,
}

/// Parsed price update.
#[derive(Debug)]
pub struct ParsedPriceUpdate {
    /// Feed id.
    pub id: String,
    /// Price.
    pub price: Price,
    /// EMA price.
    pub ema_price: Price,
    /// Metadata.
    pub metadata: Metadata,
}

/// Binary price update.
#[derive(Debug)]
pub struct BinaryPriceUpdate {
    /// Encoding.
    pub encoding: EncodingType,
    /// Data.
    pub data: Vec<String>,
}

/// Price Update.
#[derive(Debug)]
pub struct PriceUpdate {
    /// The binary update.
    pub binary: BinaryPriceUpdate,
    /// The parsed updates.
    pub parsed: Vec<ParsedPriceUpdate>,
}

/// The publish times of parsed updates.
pub open spec fn publish_times(parsed: Seq<ParsedPriceUpdate>) -> Seq<i64> {
    Seq::new(parsed.len(), |i: int| parsed[i].price.publish_time)
}

impl PriceUpdate {
    /// Get the parsed price udpate.
    pub fn parsed(&self) -> (r: &[ParsedPriceUpdate])
        ensures
            r@ == self.parsed@,
    {
        self.parsed.as_slice()
    }

    /// Min timestamp: the smallest publish time of the parsed updates, if any.
    pub fn min_timestamp(&self) -> (r: Option<i64>)
        ensures
            self.parsed@.len() == 0 ==> r is None,
            self.parsed@.len() > 0 ==> (r matches Some(t) && publish_times(self.parsed@).contains(t)
                && forall|i: int|
                0 <= i < self.parsed@.len() ==> t <= #[trigger] self.parsed@[i].price.publish_time),
    {
        let n = self.parsed.len();
        if n == 0 {
            return None;
        }
        let mut min = self.parsed[0].price.publish_time;
        let mut at: usize = 0;
        let mut i: usize = 1;
        while i < n
            invariant
                1 <= i <= n,
                n == self.parsed@.len(),
                at < i,
                min == self.parsed@[at as int].price.publish_time,
                forall|k: int| 0 <= k < i ==> min <= #[trigger] self.parsed@[k].price.publish_time,
            decreases n - i,
        {
            if self.parsed[i].price.publish_time < min {
                min = self.parsed[i].price.publish_time;
                at = i;
            }
            i = i + 1;
        }
        proof {
            assert(publish_times(self.parsed@)[at as int] == min);
        }
        Some(min)
    }
}

/// The query of a price update request: an `ids[]` parameter with the hex text of each feed id,
/// in order, and then the encoding when one is given.
pub fn get_query(feed_ids: &Vec<Identifier>, encoding: Option<EncodingType>) -> (r: Vec<(&'static str, String)>)
    ensures
        r.len() == feed_ids.len() + if encoding is Some {
            1int
        } else {
            0int
        },
        forall|i: int|
            0 <= i < feed_ids.len() ==> (#[trigger] r@[i]).0@ == "ids[]"@ && r@[i].1@ == hex_spec(
                identifier_bytes(feed_ids@[i]),
            ),
        encoding matches Some(e) ==> r@[feed_ids.len() as int].0@ == "encoding"@ && (e == EncodingType::Hex
            ==> r@[feed_ids.len() as int].1@ == "hex"@) && (e == EncodingType::Base64
            ==> r@[feed_ids.len() as int].1@ == "base64"@),
{
    let mut params: Vec<(&'static str, String)> = Vec::new();
    let mut i: usize = 0;
    while i < feed_ids.len()
        invariant
            i <= feed_ids.len(),
            params.len() == i,
            forall|j: int|
                0 <= j < i ==> (#[trigger] params@[j]).0@ == "ids[]"@ && params@[j].1@ == hex_spec(
                    identifier_bytes(feed_ids@[j]),
                ),
        decreases feed_ids.len() - i,
    {
        let bytes = feed_ids[i].to_bytes();
        let text = hex_encode(bytes.as_slice());
        params.push(("ids[]", text));
        i += 1;
    }
    if let Some(e) = encoding {
        params.push(("encoding", String::from_str(e.as_str())));
    }
    params
}

} // verus!
