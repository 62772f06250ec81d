//! The events that a change of the canonical chain raises.

use crate::execution::Chain;
use std::sync::Arc;
use vstd::prelude::*;

verus! {

/// A change of the canonical chain. The segments are shared, so copying a
/// notification copies no block.
#[derive(Clone, Debug, PartialEq, Eq)]
pub enum CanonStateNotification {
    /// The chain grew by `new`.
    Commit {
        /// The appended segment.
        new: Arc<Chain>,
    },
    /// The segment `old` left the chain and `new` took its place.
    Reorg {
        /// The displaced segment.
        old: Arc<Chain>,
        /// The replacing segment.
        new: Arc<Chain>,
    },
}

/// The notification that the chain grew by `new`.
pub fn commit_event(new: Arc<Chain>) -> (event: CanonStateNotification)
    ensures
        event == (CanonStateNotification::Commit { new }),
{
    CanonStateNotification::Commit { new }
}

/// The notification that `reverted` left the chain and `new` took its place.
pub fn reorg_event(reverted: Arc<Chain>, new: Arc<Chain>) -> (event: CanonStateNotification)
    ensures
        event == (CanonStateNotification::Reorg { old: reverted, new }),
{
    CanonStateNotification::Reorg { old: reverted, new }
}

} // verus!
