//! A keyed, time-bounded memo of resolved addresses. Times are milliseconds on a
//! clock the caller reads; an entry is live while less than its TTL has passed
//! since it was stored. Expired entries are treated as absent, never swept.

use vstd::prelude::*;
use vstd::string::*;

use crate::assoc::{
    assoc_map, keys_unique, lemma_assoc_absent, lemma_assoc_lookup, lemma_assoc_push,
    lemma_assoc_remove, lemma_assoc_update,
};
use crate::types::PaymentInfo;

verus! {

/// A stored payment information with the time it was stored and its TTL.
#[derive(Debug)]
pub struct CacheEntry {
    pub payment_info: PaymentInfo,
    pub cached_at_ms: u64,
    pub ttl_ms: u64,
}

/// Whether an entry is live at `now`: stored no later than `now`, and less than
/// its TTL ago. A clock that went backwards makes it stale.
pub open spec fn is_live(e: CacheEntry, now: u64) -> bool {
    e.cached_at_ms <= now && now - e.cached_at_ms < e.ttl_ms
}

/// What a lookup of `key` at `now` finds in the contents `m`.
pub open spec fn lookup(m: Map<Seq<char>, CacheEntry>, key: Seq<char>, now: u64) -> Option<
    CacheEntry,
> {
    if m.contains_key(key) && is_live(m[key], now) {
        Some(m[key])
    } else {
        None
    }
}

/// The cache of one resolver.
#[derive(Debug)]
pub struct AddressCache {
    entries: Vec<(String, CacheEntry)>,
    default_ttl_ms: u64,
}

/// The text view of stored pairs.
pub open spec fn entries_view(es: Seq<(String, CacheEntry)>) -> Seq<(Seq<char>, CacheEntry)> {
    es.map_values(|p: (String, CacheEntry)| (p.0@, p.1))
}

impl AddressCache {
    /// The entries by key.
    pub closed spec fn contents(&self) -> Map<Seq<char>, CacheEntry> {
        assoc_map(entries_view(self.entries@))
    }

    /// The TTL given to each entry stored.
    pub closed spec fn ttl(&self) -> u64 {
        self.default_ttl_ms
    }

    /// Each key is stored once.
    pub closed spec fn wf(&self) -> bool {
        keys_unique(entries_view(self.entries@))
    }

    /// An empty cache whose entries live `default_ttl_ms` milliseconds.
    pub fn new(default_ttl_ms: u64) -> (r: Self)
        ensures
            r.wf(),
            r.contents() == Map::<Seq<char>, CacheEntry>::empty(),
            r.ttl() == default_ttl_ms,
    {
        let r = AddressCache { entries: Vec::new(), default_ttl_ms };
        assert(entries_view(r.entries@) =~= Seq::<(Seq<char>, CacheEntry)>::empty());
        r
    }

    /// The TTL given to each entry stored.
    pub fn default_ttl(&self) -> (r: u64)
        ensures
            r == self.ttl(),
    {
        self.default_ttl_ms
    }

    /// Where `key` is stored, if it is.
    fn position(&self, key: &str) -> (r: Option<usize>)
        requires
            self.wf(),
        ensures
            r matches Some(i) ==> i < self.entries@.len() && self.entries@[i as int].0@ == key@,
            r is None ==> forall|i: int|
                0 <= i < self.entries@.len() ==> #[trigger] entries_view(self.entries@)[i].0
                    != key@,
    {
        let k = String::from_str(key);
        let ghost ev = entries_view(self.entries@);
        let mut i: usize = 0;
        while i < self.entries.len()
            invariant
                i <= self.entries@.len(),
                ev == entries_view(self.entries@),
                k@ == key@,
                forall|j: int| 0 <= j < i ==> #[trigger] ev[j].0 != key@,
            decreases self.entries@.len() - i,
        {
            assert(ev[i as int] == (self.entries@[i as int].0@, self.entries@[i as int].1));
            if self.entries[i].0 == k {
                return Some(i);
            }
            i = i + 1;
        }
        None
    }

    /// The information stored under `key`, if it is live at `now_ms`; a stale
    /// entry is left in place.
    pub fn get(&self, key: &str, now_ms: u64) -> (r: Option<PaymentInfo>)
        requires
            self.wf(),
        ensures
            r is Some <==> lookup(self.contents(), key@, now_ms) is Some,
            r matches Some(info) ==> info.same_as(
                &lookup(self.contents(), key@, now_ms)->Some_0.payment_info,
            ),
    {
        let ghost ev = entries_view(self.entries@);
        match self.position(key) {
            Some(i) => {
                proof {
                    assert(ev[i as int].0 == key@);
                    lemma_assoc_lookup(ev, i as int);
                }
                let e = &self.entries[i].1;
                if e.cached_at_ms <= now_ms && now_ms - e.cached_at_ms < e.ttl_ms {
                    Some(e.payment_info.duplicate())
                } else {
                    None
                }
            },
            None => {
                proof {
                    lemma_assoc_absent(ev, key@);
                }
                None
            },
        }
    }

    /// Stores `info` under `key` at `now_ms` with the default TTL, replacing what
    /// was stored there.
    pub fn insert(&mut self, key: String, info: PaymentInfo, now_ms: u64)
        requires
            old(self).wf(),
        ensures
            final(self).wf(),
            final(self).ttl() == old(self).ttl(),
            final(self).contents() == old(self).contents().insert(
                key@,
                (CacheEntry { payment_info: info, cached_at_ms: now_ms, ttl_ms: old(self).ttl() }),
            ),
    {
        let ghost ev = entries_view(self.entries@);
        let entry = CacheEntry { payment_info: info, cached_at_ms: now_ms, ttl_ms: self.default_ttl_ms };
        let ghost ge = entry;
        match self.position(key.as_str()) {
            Some(i) => {
                proof {
                    assert(ev[i as int].0 == key@);
                    lemma_assoc_update(ev, i as int, ge);
                }
                self.entries.set(i, (key, entry));
                assert(entries_view(self.entries@) =~= ev.update(i as int, (ev[i as int].0, ge)));
            },
            None => {
                proof {
                    lemma_assoc_push(ev, key@, ge);
                }
                self.entries.push((key, entry));
                assert(entries_view(self.entries@) =~= ev.push((key@, ge)));
            },
        }
    }

    /// Removes what is stored under `key`.
    pub fn invalidate(&mut self, key: &str)
        requires
            old(self).wf(),
        ensures
            final(self).wf(),
            final(self).ttl() == old(self).ttl(),
            final(self).contents() == old(self).contents().remove(key@),
    {
        let ghost ev = entries_view(self.entries@);
        match self.position(key) {
            Some(i) => {
                proof {
                    assert(ev[i as int].0 == key@);
                    lemma_assoc_remove(ev, i as int);
                }
                self.entries.remove(i);
                assert(entries_view(self.entries@) =~= ev.remove(i as int));
            },
            None => {
                proof {
                    lemma_assoc_absent(ev, key@);
                }
                assert(old(self).contents().remove(key@) =~= old(self).contents());
            },
        }
    }

    /// Removes every entry.
    pub fn clear(&mut self)
        ensures
            final(self).wf(),
            final(self).ttl() == old(self).ttl(),
            final(self).contents() == Map::<Seq<char>, CacheEntry>::empty(),
    {
        self.entries.clear();
        assert(entries_view(self.entries@) =~= Seq::<(Seq<char>, CacheEntry)>::empty());
    }
}

/// What is stored is found until its TTL has passed, and not after; what was
/// invalidated is not found; nothing is found in a cleared cache.
pub proof fn lemma_cache_law(
    m: Map<Seq<char>, CacheEntry>,
    key: Seq<char>,
    info: PaymentInfo,
    stored_at: u64,
    ttl: u64,
    now: u64,
)
    ensures
        ({
            let e = CacheEntry { payment_info: info, cached_at_ms: stored_at, ttl_ms: ttl };
            &&& stored_at <= now && now - stored_at < ttl ==> lookup(m.insert(key, e), key, now)
                == Some(e)
            &&& now - stored_at >= ttl ==> lookup(m.insert(key, e), key, now) is None
        }),
        lookup(m.remove(key), key, now) is None,
        lookup(Map::<Seq<char>, CacheEntry>::empty(), key, now) is None,
{
}

} // verus!
