//! Which contract interface a price feed is read through.

use crate::text::same_text;
use vstd::prelude::*;

verus! {

/// The price feeds whose contract interface is known.
#[derive(Clone, Copy, Debug, PartialEq, Eq, Hash)]
pub enum FeedKind {
    LinkEth,
    EthUsd,
}

/// The kind of feed that a display name stands for: `LINK/ETH` and
/// `ETH/USD` are known, every other name is unsupported.
pub open spec fn feed_kind_spec(feed_type: Seq<char>) -> Option<FeedKind> {
    if feed_type == "LINK/ETH"@ {
        Some(FeedKind::LinkEth)
    } else if feed_type == "ETH/USD"@ {
        Some(FeedKind::EthUsd)
    } else {
        None
    }
}

/// The kind of the feed with the given display name, or `None` when the
/// feed is not supported.
pub fn feed_kind(feed_type: &str) -> (kind: Option<FeedKind>)
    ensures
        kind == feed_kind_spec(feed_type@),
{
    if same_text(feed_type, "LINK/ETH") {
        Some(FeedKind::LinkEth)
    } else if same_text(feed_type, "ETH/USD") {
        Some(FeedKind::EthUsd)
    } else {
        None
    }
}

} // verus!
