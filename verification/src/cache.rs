//! When stored rows are due for eviction, and the statement that evicts them.

use vstd::prelude::*;
use vstd::string::*;
use crate::text::{i64_to_text, int_text};

verus! {

/// The time before which rows are evicted: `now` less `ttl`, or the least
/// timestamp there is where that would lie below it.
pub open spec fn cutoff_at(ttl: u64, now: i64) -> i64 {
    if now - ttl < i64::MIN {
        i64::MIN
    } else {
        (now - ttl) as i64
    }
}

/// The statement that deletes every row older than `cutoff`.
pub open spec fn eviction_text(cutoff: i64) -> Seq<char> {
    "DELETE FROM metrics WHERE timestamp < "@ + int_text(cutoff as int)
}

/// The eviction statement that is due at time `now` under the time-to-live
/// `ttl`, if any is: none without a time-to-live or with one of zero.
pub open spec fn eviction_due(ttl: Option<u64>, now: i64) -> Option<Seq<char>> {
    match CacheManager::due_for(ttl, now) {
        Some(cutoff) => Some(eviction_text(cutoff)),
        None => None,
    }
}

/// True when `text` is there exactly if `wanted` is, and then says the same.
pub open spec fn same_text(text: Option<String>, wanted: Option<Seq<char>>) -> bool {
    match wanted {
        Some(w) => text is Some && text.unwrap()@ == w,
        None => text is None,
    }
}

/// The retention policy of one backend.
#[derive(Clone, Copy, Debug)]
pub struct CacheManager {
    ttl: Option<u64>,
}

impl CacheManager {
    /// The time-to-live in seconds, if one is set.
    pub closed spec fn ttl(&self) -> Option<u64> {
        self.ttl
    }

    /// The cutoff that is due at time `now` under the time-to-live `ttl`:
    /// none without one or with one of zero.
    pub open spec fn due_for(ttl: Option<u64>, now: i64) -> Option<i64> {
        match ttl {
            Some(t) => if t == 0 {
                None
            } else {
                Some(cutoff_at(t, now))
            },
            None => None,
        }
    }

    /// The cutoff that is due at time `now`, if eviction is enabled.
    pub open spec fn due(&self, now: i64) -> Option<i64> {
        CacheManager::due_for(self.ttl(), now)
    }

    /// A policy with the given time-to-live in seconds. Without one, or with
    /// one of zero, nothing is ever evicted.
    pub fn new(ttl: Option<u64>) -> (r: CacheManager)
        ensures
            r.ttl() == ttl,
    {
        CacheManager { ttl }
    }

    /// The time-to-live that the policy was made with.
    pub fn time_to_live(&self) -> (r: Option<u64>)
        ensures
            r == self.ttl(),
    {
        self.ttl
    }

    /// Decides, at time `now` in seconds, whether rows are to be evicted,
    /// and gives the cutoff below which they are.
    pub fn should_evict(&self, now: i64) -> (r: Option<i64>)
        ensures
            r == self.due(now),
    {
        match self.ttl {
            None => None,
            Some(ttl) => {
                if ttl == 0 {
                    None
                } else {
                    let distance: i128 = now as i128 - ttl as i128;
                    if distance < i64::MIN as i128 {
                        Some(i64::MIN)
                    } else {
                        Some(distance as i64)
                    }
                }
            },
        }
    }

    /// The eviction statement to run at time `now`, if one is due.
    pub fn eviction(&self, now: i64) -> (r: Option<String>)
        ensures
            same_text(r, eviction_due(self.ttl(), now)),
    {
        match self.should_evict(now) {
            Some(cutoff) => Some(self.eviction_query(cutoff)),
            None => None,
        }
    }

    /// The statement that evicts the rows older than `cutoff`.
    pub fn eviction_query(&self, cutoff: i64) -> (r: String)
        ensures
            r@ == eviction_text(cutoff),
    {
        let mut query = String::from_str("DELETE FROM metrics WHERE timestamp < ");
        query.append(i64_to_text(cutoff).as_str());
        query
    }
}

/// A row falls below the cutoff exactly if it is older than the
/// time-to-live allows, also where the cutoff stopped at the least
/// timestamp.
pub proof fn lemma_cutoff_separates(ttl: u64, now: i64, timestamp: i64)
    ensures
        timestamp < cutoff_at(ttl, now) <==> timestamp < now - ttl,
{
}

/// The cutoff never lies after the time at which it is taken, and moves
/// with it.
pub proof fn lemma_cutoff_monotone(ttl: u64, earlier: i64, later: i64)
    requires
        earlier <= later,
    ensures
        cutoff_at(ttl, earlier) <= cutoff_at(ttl, later),
        cutoff_at(ttl, later) <= later,
{
}

} // verus!
