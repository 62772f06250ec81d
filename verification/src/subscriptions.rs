//! The registry of subscribers and the fan-out of notifications to them.

use crate::execution::Chain;
use crate::notification::{commit_event, reorg_event, CanonStateNotification};
use crate::outside::{channel, channel_limit, send};
use std::sync::Arc;
use tokio::sync::broadcast::{Receiver, Sender};
use vstd::prelude::*;

verus! {

/// How many notifications a subscriber may leave unread before its oldest
/// one is dropped.
pub const CHANNEL_CAPACITY: usize = 100;

/// The entries that stay after a fan-out: those whose flag in `delivered` is
/// set, in their old order.
pub open spec fn kept<T>(entries: Seq<T>, delivered: Seq<bool>) -> Seq<T>
    recommends
        delivered.len() == entries.len(),
    decreases entries.len(),
{
    if entries.len() == 0 {
        Seq::empty()
    } else if delivered.last() {
        kept(entries.drop_last(), delivered.drop_last()).push(entries.last())
    } else {
        kept(entries.drop_last(), delivered.drop_last())
    }
}

/// The number of flags in `delivered` that are not set: the subscribers
/// found dead during one fan-out.
pub open spec fn dead_count(delivered: Seq<bool>) -> nat
    decreases delivered.len(),
{
    if delivered.len() == 0 {
        0
    } else if delivered.last() {
        dead_count(delivered.drop_last())
    } else {
        dead_count(delivered.drop_last()) + 1
    }
}

/// A fan-out removes exactly as many entries as it found dead.
pub proof fn lemma_pruned_count<T>(entries: Seq<T>, delivered: Seq<bool>)
    requires
        delivered.len() == entries.len(),
    ensures
        kept(entries, delivered).len() + dead_count(delivered) == entries.len(),
    decreases entries.len(),
{
    if entries.len() > 0 {
        lemma_pruned_count(entries.drop_last(), delivered.drop_last());
    }
}

/// A fan-out that reaches every subscriber removes none of them.
pub proof fn lemma_all_delivered_keeps_all<T>(entries: Seq<T>, delivered: Seq<bool>)
    requires
        delivered.len() == entries.len(),
        forall|i: int| 0 <= i < delivered.len() ==> delivered[i],
    ensures
        kept(entries, delivered) == entries,
    decreases entries.len(),
{
    if entries.len() > 0 {
        lemma_all_delivered_keeps_all(entries.drop_last(), delivered.drop_last());
        assert(entries.drop_last().push(entries.last()) =~= entries);
    }
}

/// What stays after a fan-out is exactly what was reached: an entry is kept
/// if and only if it was registered at a position whose flag is set.
pub proof fn lemma_kept_are_delivered<T>(entries: Seq<T>, delivered: Seq<bool>, entry: T)
    requires
        delivered.len() == entries.len(),
    ensures
        kept(entries, delivered).contains(entry) <==> exists|i: int|
            0 <= i < entries.len() && delivered[i] && entries[i] == entry,
    decreases entries.len(),
{
    let after = kept(entries, delivered);
    if entries.len() > 0 {
        let front = entries.drop_last();
        let flags = delivered.drop_last();
        let last = entries.len() - 1;
        lemma_kept_are_delivered(front, flags, entry);
        if after.contains(entry) {
            let k = choose|k: int| 0 <= k < after.len() && after[k] == entry;
            if delivered.last() && k == after.len() - 1 {
                assert(delivered[last] && entries[last] == entry);
            } else {
                assert(kept(front, flags)[k] == entry);
                let i = choose|i: int| 0 <= i < front.len() && flags[i] && front[i] == entry;
                assert(delivered[i] && entries[i] == entry);
            }
        }
        if exists|i: int| 0 <= i < entries.len() && delivered[i] && entries[i] == entry {
            let i = choose|i: int| 0 <= i < entries.len() && delivered[i] && entries[i] == entry;
            if i == last {
                assert(after[after.len() - 1] == entry);
            } else {
                assert(flags[i] && front[i] == entry);
                let k = choose|k: int|
                    0 <= k < kept(front, flags).len() && kept(front, flags)[k] == entry;
                assert(after[k] == entry);
            }
        }
    }
}

/// Removes from `entries` every entry whose flag in `delivered` is not set
/// and keeps the others in their order.
pub fn retain_delivered<T>(entries: &mut Vec<T>, delivered: &Vec<bool>)
    requires
        old(entries)@.len() == delivered@.len(),
    ensures
        final(entries)@ == kept(old(entries)@, delivered@),
{
    let ghost before = entries@;
    let mut at: usize = 0;
    let mut j: usize = 0;
    while j < delivered.len()
        invariant
            j <= delivered@.len(),
            before.len() == delivered@.len(),
            at <= j,
            at == kept(before.take(j as int), delivered@.take(j as int)).len(),
            entries@ == kept(before.take(j as int), delivered@.take(j as int)) + before.skip(
                j as int,
            ),
        decreases delivered@.len() - j,
    {
        proof {
            assert(before.take(j + 1).drop_last() =~= before.take(j as int));
            assert(delivered@.take(j + 1).drop_last() =~= delivered@.take(j as int));
        }
        if delivered[j] {
            at = at + 1;
        } else {
            entries.remove(at);
        }
        assert(entries@ =~= kept(before.take(j + 1), delivered@.take(j + 1)) + before.skip(j + 1));
        j = j + 1;
    }
    proof {
        assert(before.take(j as int) =~= before);
        assert(delivered@.take(j as int) =~= delivered@);
        assert(entries@ =~= kept(before, delivered@));
    }
}

/// The subscribers to canonical-state notifications: one sending endpoint
/// for each, in the order they subscribed.
#[derive(Debug)]
pub struct TestCanonStateSubscriptions {
    canon_notif_tx: Vec<Sender<CanonStateNotification>>,
}

impl View for TestCanonStateSubscriptions {
    type V = Seq<Sender<CanonStateNotification>>;

    closed spec fn view(&self) -> Seq<Sender<CanonStateNotification>> {
        self.canon_notif_tx@
    }
}

impl Default for TestCanonStateSubscriptions {
    fn default() -> (subscriptions: TestCanonStateSubscriptions)
        ensures
            subscriptions@.len() == 0,
            subscriptions.uniformly_limited(),
    {
        TestCanonStateSubscriptions { canon_notif_tx: Vec::new() }
    }
}

impl TestCanonStateSubscriptions {
    /// Whether every registered channel was made to hold `CHANNEL_CAPACITY`
    /// unread notifications. It holds of a new registry, and every method
    /// keeps it.
    pub open spec fn uniformly_limited(&self) -> bool {
        forall|i: int| 0 <= i < self@.len() ==> channel_limit(#[trigger] self@[i]) == CHANNEL_CAPACITY
    }

    /// The number of registered subscribers.
    pub fn subscriber_count(&self) -> (count: usize)
        ensures
            count == self@.len(),
    {
        self.canon_notif_tx.len()
    }

    /// Registers a new subscriber behind all earlier ones and returns the
    /// endpoint it reads from. The earlier entries stay as they are.
    pub fn subscribe_to_canonical_state(&mut self) -> (receiver: Receiver<CanonStateNotification>)
        ensures
            final(self)@.len() == old(self)@.len() + 1,
            final(self)@.drop_last() == old(self)@,
            channel_limit(final(self)@.last()) == CHANNEL_CAPACITY,
            old(self).uniformly_limited() ==> final(self).uniformly_limited(),
    {
        let (canon_notif_tx, canon_notif_rx) = channel(CHANNEL_CAPACITY);
        self.canon_notif_tx.push(canon_notif_tx);
        assert(self@.drop_last() =~= old(self)@);
        canon_notif_rx
    }

    /// Offers a copy of `event` once to every registered subscriber, in
    /// order, and reports for each whether it could be reached.
    fn send_all(&self, event: &CanonStateNotification) -> (delivered: Vec<bool>)
        ensures
            delivered@.len() == self@.len(),
    {
        let mut delivered: Vec<bool> = Vec::new();
        let mut i: usize = 0;
        while i < self.canon_notif_tx.len()
            invariant
                i <= self.canon_notif_tx@.len(),
                delivered@.len() == i,
            decreases self.canon_notif_tx@.len() - i,
        {
            delivered.push(send(&self.canon_notif_tx[i], event.clone()));
            i = i + 1;
        }
        delivered
    }

    /// Offers `event` to every registered subscriber and removes those that
    /// could not be reached. Returns, for each subscriber registered before
    /// the call, whether it was reached.
    pub fn notify(&mut self, event: CanonStateNotification) -> (delivered: Vec<bool>)
        ensures
            delivered@.len() == old(self)@.len(),
            final(self)@ == kept(old(self)@, delivered@),
            final(self)@.len() + dead_count(delivered@) == old(self)@.len(),
            old(self).uniformly_limited() ==> final(self).uniformly_limited(),
    {
        let delivered = self.send_all(&event);
        retain_delivered(&mut self.canon_notif_tx, &delivered);
        proof {
            lemma_pruned_count(old(self)@, delivered@);
            if old(self).uniformly_limited() {
                assert forall|i: int| 0 <= i < self@.len() implies channel_limit(
                    #[trigger] self@[i],
                ) == CHANNEL_CAPACITY by {
                    lemma_kept_are_delivered(old(self)@, delivered@, self@[i]);
                    assert(self@.contains(self@[i]));
                }
            }
        }
        delivered
    }

    /// Publishes the commit of `new` to every subscriber. A subscriber whose
    /// receiving endpoint is gone is removed; the others stay in their order.
    pub fn add_next_commit(&mut self, new: Arc<Chain>)
        ensures
            exists|delivered: Seq<bool>|
                delivered.len() == old(self)@.len() && final(self)@ == #[trigger] kept(
                    old(self)@,
                    delivered,
                ),
            final(self)@.len() <= old(self)@.len(),
            old(self).uniformly_limited() ==> final(self).uniformly_limited(),
    {
        let event = commit_event(new);
        let _ = self.notify(event);
    }

    /// Publishes the replacement of `reverted` by `new` to every subscriber. A
    /// subscriber whose receiving endpoint is gone is removed; the others
    /// stay in their order.
    pub fn add_next_reorg(&mut self, reverted: Arc<Chain>, new: Arc<Chain>)
        ensures
            exists|delivered: Seq<bool>|
                delivered.len() == old(self)@.len() && final(self)@ == #[trigger] kept(
                    old(self)@,
                    delivered,
                ),
            final(self)@.len() <= old(self)@.len(),
            old(self).uniformly_limited() ==> final(self).uniformly_limited(),
    {
        let event = reorg_event(reverted, new);
        let _ = self.notify(event);
    }
}

} // verus!
