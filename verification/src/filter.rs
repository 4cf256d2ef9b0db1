//! The freshness filter: given the entries of a parsed feed and the current
//! time, decide whether the delivery is stale enough to block.

use vstd::prelude::*;

verus! {

/// Length of the freshness window, in seconds: one day.
pub const SECONDS_PER_DAY: i64 = 86_400;

/// One feed entry, reduced to what the filter reads: its publication
/// time as seconds since the Unix epoch, if the entry carries one.
#[derive(Clone, Copy, Debug)]
pub struct Entry {
    pub published: Option<i64>,
}

/// The filtering decision for one feed delivery.
#[derive(Clone, Copy, Debug, PartialEq, Eq, Structural)]
pub enum Decision {
    /// Acknowledge the delivery but do not forward it.
    Block,
    /// Forward the delivery upstream.
    PassThrough,
}

/// An entry is stale when it carries a publication time and that time is
/// strictly before the threshold. An entry without a publication time is
/// never stale: uncertain freshness must not be discarded.
pub open spec fn entry_stale(published: Option<i64>, threshold: int) -> bool {
    published matches Some(t) && t < threshold
}

/// A whole delivery is blocked exactly when every entry is stale under the
/// threshold `now - 1 day`. A feed with no entries is vacuously all stale.
pub open spec fn all_stale(entries: Seq<Option<i64>>, now: int) -> bool {
    forall|i: int| 0 <= i < entries.len() ==> entry_stale(entries[i], now - SECONDS_PER_DAY)
}

/// The publication times of a sequence of entries, in order.
pub open spec fn published_of(entries: Seq<Entry>) -> Seq<Option<i64>> {
    entries.map_values(|e: Entry| e.published)
}

/// Decide whether to block a delivery: block exactly when every entry has a
/// publication time strictly older than `now` minus one day.
pub fn decide(entries: &Vec<Entry>, now: i64) -> (r: Decision)
    ensures
        r is Block <==> all_stale(published_of(entries@), now as int),
{
    let threshold = if now >= i64::MIN + SECONDS_PER_DAY {
        now - SECONDS_PER_DAY
    } else {
        i64::MIN
    };
    let mut i: usize = 0;
    while i < entries.len()
        invariant
            0 <= i <= entries@.len(),
            threshold == if now - SECONDS_PER_DAY >= i64::MIN {
                now - SECONDS_PER_DAY
            } else {
                i64::MIN as int
            },
            forall|j: int|
                0 <= j < i ==> entry_stale(published_of(entries@)[j], now - SECONDS_PER_DAY),
        decreases entries@.len() - i,
    {
        let stale = match entries[i].published {
            Some(t) => t < threshold,
            None => false,
        };
        if !stale {
            assert(!entry_stale(published_of(entries@)[i as int], now - SECONDS_PER_DAY));
            return Decision::PassThrough;
        }
        i += 1;
    }
    Decision::Block
}

/// Law: a delivery in which every entry carries a publication time strictly
/// older than one day before `now` is blocked.
pub proof fn lemma_all_old_entries_blocked(entries: Seq<Option<i64>>, now: int)
    requires
        forall|i: int|
            0 <= i < entries.len() ==> (#[trigger] entries[i] matches Some(t) && t < now
                - SECONDS_PER_DAY),
    ensures
        all_stale(entries, now),
{
}

/// Law: a delivery with no entries at all is vacuously stale, so it is
/// blocked.
pub proof fn lemma_empty_delivery_blocked(entries: Seq<Option<i64>>, now: int)
    requires
        entries.len() == 0,
    ensures
        all_stale(entries, now),
{
}

/// Law: a delivery that contains at least one entry with no publication time,
/// or at least one entry published at or after one day before `now`, is not
/// provably stale, so it passes through.
pub proof fn lemma_fresh_or_undated_entry_passes(entries: Seq<Option<i64>>, now: int)
    requires
        exists|i: int|
            0 <= i < entries.len() && !(#[trigger] entries[i] matches Some(t) && t < now
                - SECONDS_PER_DAY),
    ensures
        !all_stale(entries, now),
{
    let i = choose|i: int|
        0 <= i < entries.len() && !(#[trigger] entries[i] matches Some(t) && t < now
            - SECONDS_PER_DAY);
    assert(!entry_stale(entries[i], now - SECONDS_PER_DAY));
}

} // verus!
