//! Counters of resolutions and cache lookups, and the statistics read from them.

use vstd::prelude::*;

verus! {

/// Counters of one resolver. Every resolution counted is counted as a success or
/// as a failure; a counter that has reached the largest value stays there.
#[derive(Debug)]
pub struct Bip353Metrics {
    resolutions_total: u64,
    resolutions_success: u64,
    resolutions_failed: u64,
    cache_hits: u64,
    cache_misses: u64,
    address_reuse_detected: u64,
}

/// Resolution counts at one moment.
#[derive(Debug, Clone, Copy)]
pub struct ResolutionStats {
    pub total: u64,
    pub success: u64,
    pub failed: u64,
}

/// Cache lookup counts at one moment.
#[derive(Debug, Clone, Copy)]
pub struct CacheStats {
    pub hits: u64,
    pub misses: u64,
    pub total: u64,
}

impl ResolutionStats {
    /// The success rate as a fraction `(numerator, denominator)`: successes over
    /// resolutions, or `0 / 1` when nothing was resolved.
    pub fn success_rate(&self) -> (r: (u64, u64))
        ensures
            self.total == 0 ==> r == (0u64, 1u64),
            self.total != 0 ==> r == (self.success, self.total),
    {
        if self.total > 0 {
            (self.success, self.total)
        } else {
            (0, 1)
        }
    }
}

impl CacheStats {
    /// The hit rate as a fraction `(numerator, denominator)`: hits over lookups,
    /// or `0 / 1` when nothing was looked up.
    pub fn hit_rate(&self) -> (r: (u64, u64))
        ensures
            self.total == 0 ==> r == (0u64, 1u64),
            self.total != 0 ==> r == (self.hits, self.total),
    {
        if self.total > 0 {
            (self.hits, self.total)
        } else {
            (0, 1)
        }
    }
}

impl Bip353Metrics {
    #[verifier::type_invariant]
    spec fn inv(&self) -> bool {
        &&& self.resolutions_total == self.resolutions_success + self.resolutions_failed
        &&& self.cache_hits + self.cache_misses <= u64::MAX
    }

    pub closed spec fn total(&self) -> nat {
        self.resolutions_total as nat
    }

    pub closed spec fn success(&self) -> nat {
        self.resolutions_success as nat
    }

    pub closed spec fn failed(&self) -> nat {
        self.resolutions_failed as nat
    }

    pub closed spec fn hits(&self) -> nat {
        self.cache_hits as nat
    }

    pub closed spec fn misses(&self) -> nat {
        self.cache_misses as nat
    }

    pub closed spec fn reuses(&self) -> nat {
        self.address_reuse_detected as nat
    }

    /// Every resolution counted is a success or a failure, and the lookups counted
    /// fit a counter.
    pub open spec fn balanced(&self) -> bool {
        self.total() == self.success() + self.failed() && self.hits() + self.misses() <= u64::MAX
    }

    /// Every counter is zero.
    pub open spec fn is_zero(&self) -> bool {
        self.total() == 0 && self.success() == 0 && self.failed() == 0 && self.hits() == 0
            && self.misses() == 0 && self.reuses() == 0
    }

    /// `b` is `a` with every counter but the named ones unchanged.
    pub open spec fn others_kept(a: &Bip353Metrics, b: &Bip353Metrics, total: bool, success: bool, failed: bool, hits: bool, misses: bool) -> bool {
        &&& (!total ==> b.total() == a.total())
        &&& (!success ==> b.success() == a.success())
        &&& (!failed ==> b.failed() == a.failed())
        &&& (!hits ==> b.hits() == a.hits())
        &&& (!misses ==> b.misses() == a.misses())
        &&& b.reuses() == a.reuses()
        &&& b.balanced()
    }

    /// `b` counts one more successful resolution than `a`, unless the total
    /// counter was full.
    pub open spec fn after_success(a: &Bip353Metrics, b: &Bip353Metrics) -> bool {
        &&& a.total() < u64::MAX ==> b.total() == a.total() + 1 && b.success() == a.success() + 1
        &&& a.total() == u64::MAX ==> b.total() == a.total() && b.success() == a.success()
        &&& Self::others_kept(a, b, true, true, false, false, false)
    }

    /// `b` counts one more failed resolution than `a`, unless the total counter
    /// was full.
    pub open spec fn after_failure(a: &Bip353Metrics, b: &Bip353Metrics) -> bool {
        &&& a.total() < u64::MAX ==> b.total() == a.total() + 1 && b.failed() == a.failed() + 1
        &&& a.total() == u64::MAX ==> b.total() == a.total() && b.failed() == a.failed()
        &&& Self::others_kept(a, b, true, false, true, false, false)
    }

    /// `b` counts one more cache hit than `a`, unless the lookups counted fill a
    /// counter.
    pub open spec fn after_hit(a: &Bip353Metrics, b: &Bip353Metrics) -> bool {
        &&& a.hits() + a.misses() < u64::MAX ==> b.hits() == a.hits() + 1
        &&& a.hits() + a.misses() == u64::MAX ==> b.hits() == a.hits()
        &&& Self::others_kept(a, b, false, false, false, true, false)
    }

    /// `b` counts one more cache miss than `a`, unless the lookups counted fill a
    /// counter.
    pub open spec fn after_miss(a: &Bip353Metrics, b: &Bip353Metrics) -> bool {
        &&& a.hits() + a.misses() < u64::MAX ==> b.misses() == a.misses() + 1
        &&& a.hits() + a.misses() == u64::MAX ==> b.misses() == a.misses()
        &&& Self::others_kept(a, b, false, false, false, false, true)
    }

    /// Counters that all start at zero.
    pub fn new() -> (r: Self)
        ensures
            r.is_zero(),
            r.balanced(),
    {
        Bip353Metrics {
            resolutions_total: 0,
            resolutions_success: 0,
            resolutions_failed: 0,
            cache_hits: 0,
            cache_misses: 0,
            address_reuse_detected: 0,
        }
    }

    /// Counts a successful resolution of an address at `_domain` that took
    /// `_duration_ms` milliseconds.
    pub fn record_resolution_success(&mut self, _domain: &str, _duration_ms: u64)
        ensures
            Self::after_success(&*old(self), &*final(self)),
    {
        proof {
            use_type_invariant(&*self);
        }
        if self.resolutions_total < u64::MAX {
            *self = Bip353Metrics {
                resolutions_total: self.resolutions_total + 1,
                resolutions_success: self.resolutions_success + 1,
                ..*self
            };
        }
    }

    /// Counts a failed resolution of an address at `_domain`, of kind `_error_type`.
    pub fn record_resolution_failure(&mut self, _domain: &str, _error_type: &str)
        ensures
            Self::after_failure(&*old(self), &*final(self)),
    {
        proof {
            use_type_invariant(&*self);
        }
        if self.resolutions_total < u64::MAX {
            *self = Bip353Metrics {
                resolutions_total: self.resolutions_total + 1,
                resolutions_failed: self.resolutions_failed + 1,
                ..*self
            };
        }
    }

    /// Record cache hit
    pub fn record_cache_hit(&mut self)
        ensures
            Self::after_hit(&*old(self), &*final(self)),
    {
        proof {
            use_type_invariant(&*self);
        }
        if self.cache_hits < u64::MAX - self.cache_misses {
            self.cache_hits = self.cache_hits + 1;
        }
    }

    /// Record cache miss
    pub fn record_cache_miss(&mut self)
        ensures
            Self::after_miss(&*old(self), &*final(self)),
    {
        proof {
            use_type_invariant(&*self);
        }
        if self.cache_misses < u64::MAX - self.cache_hits {
            self.cache_misses = self.cache_misses + 1;
        }
    }

    /// Record address reuse detection
    pub fn record_address_reuse(&mut self)
        ensures
            old(self).reuses() < u64::MAX ==> final(self).reuses() == old(self).reuses() + 1,
            old(self).reuses() == u64::MAX ==> final(self).reuses() == old(self).reuses(),
            final(self).total() == old(self).total(),
            final(self).success() == old(self).success(),
            final(self).failed() == old(self).failed(),
            final(self).hits() == old(self).hits(),
            final(self).misses() == old(self).misses(),
            final(self).balanced(),
    {
        proof {
            use_type_invariant(&*self);
        }
        if self.address_reuse_detected < u64::MAX {
            self.address_reuse_detected = self.address_reuse_detected + 1;
        }
    }

    /// Get resolution statistics
    pub fn get_resolution_stats(&self) -> (r: ResolutionStats)
        ensures
            r.total == self.total(),
            r.success == self.success(),
            r.failed == self.failed(),
            r.total == r.success + r.failed,
    {
        proof {
            use_type_invariant(self);
        }
        ResolutionStats {
            total: self.resolutions_total,
            success: self.resolutions_success,
            failed: self.resolutions_failed,
        }
    }

    /// Get cache statistics
    pub fn get_cache_stats(&self) -> (r: CacheStats)
        ensures
            r.hits == self.hits(),
            r.misses == self.misses(),
            r.total == self.hits() + self.misses(),
    {
        proof {
            use_type_invariant(self);
        }
        CacheStats {
            hits: self.cache_hits,
            misses: self.cache_misses,
            total: self.cache_hits + self.cache_misses,
        }
    }

    /// Address reuses detected so far.
    pub fn address_reuse_count(&self) -> (r: u64)
        ensures
            r == self.reuses(),
    {
        self.address_reuse_detected
    }
}

} // verus!
