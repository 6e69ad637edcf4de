//! The resolver: the backend kind, the configuration, and the optional cache and
//! counters around resolution. The backend call itself suspends, so a safety
//! checked resolution is two steps that a driver runs around that call: the
//! first consults the cache, the second records the outcome.

use vstd::prelude::*;
use vstd::string::*;

use crate::cache::{lookup, AddressCache, CacheEntry};
use crate::config::{is_default_config, ResolverConfig};
use crate::error::{error_for, BackendFailure, Bip353Error};
use crate::metrics::{Bip353Metrics, CacheStats, ResolutionStats};
use crate::types::{built_from, payment_info_from_original, OriginalInstructions, PaymentInfo};

verus! {

/// Type of resolver to use
#[derive(Debug, Clone, Copy, PartialEq, Eq, Structural)]
pub enum ResolverType {
    /// DNS resolver using DNS-over-TCP
    DNS,
    /// HTTP resolver using HTTPS
    HTTP,
}

/// Address usage warning
#[derive(Debug)]
pub enum AddressWarning {
    /// Address was used in a previous transaction
    AddressReused { tx_id: String },
    /// DNS record is stale; its age in milliseconds
    StaleRecord { age_ms: u64 },
    /// DNSSEC validation issues
    DnssecWarning { message: String },
}

/// Enhanced payment info with safety warnings
#[derive(Debug)]
pub struct SafePaymentInfo {
    pub payment_info: PaymentInfo,
    pub warnings: Vec<AddressWarning>,
    /// When the information was checked, in milliseconds on the caller's clock
    pub last_checked_ms: u64,
}

/// What the first step of a safety checked resolution decided.
#[derive(Debug)]
pub enum SafetyStep {
    /// The cache held a live answer; nothing is left to do.
    Cached(SafePaymentInfo),
    /// The backend must be asked for the address, the key given here.
    Resolve(String),
}

/// The address `user@domain` that the backend resolves and the cache is keyed by.
pub open spec fn hrn_of(user: Seq<char>, domain: Seq<char>) -> Seq<char> {
    user + seq!['@'] + domain
}

/// BIP-353 resolver
pub struct Bip353Resolver {
    resolver_type: ResolverType,
    config: ResolverConfig,
    cache: Option<AddressCache>,
    metrics: Option<Bip353Metrics>,
}

/// `b` is `a` with the metrics changed as `step` says, where there are metrics.
pub open spec fn metrics_step(
    a: Option<Bip353Metrics>,
    b: Option<Bip353Metrics>,
    step: spec_fn(&Bip353Metrics, &Bip353Metrics) -> bool,
) -> bool {
    match (a, b) {
        (Some(x), Some(y)) => step(&x, &y),
        (None, None) => true,
        _ => false,
    }
}

/// `r` is the answer the cache `c` gives for `key` at `now`: without a cache, or
/// without a live entry, the key to resolve; else the entry's information with
/// no warnings, checked at `now`.
pub open spec fn answers(c: Option<AddressCache>, key: Seq<char>, now: u64, r: SafetyStep) -> bool {
    match c {
        None => r matches SafetyStep::Resolve(k) && k@ == key,
        Some(c) => match lookup(c.contents(), key, now) {
            Some(e) => r matches SafetyStep::Cached(s) && s.payment_info.same_as(&e.payment_info)
                && s.warnings@.len() == 0 && s.last_checked_ms == now,
            None => r matches SafetyStep::Resolve(k) && k@ == key,
        },
    }
}

/// `b` holds the same metrics as `a`, or neither has metrics.
pub open spec fn metrics_kept(a: Option<Bip353Metrics>, b: Option<Bip353Metrics>) -> bool {
    a == b
}

impl Bip353Resolver {
    pub closed spec fn kind(&self) -> ResolverType {
        self.resolver_type
    }

    pub closed spec fn settings(&self) -> ResolverConfig {
        self.config
    }

    pub closed spec fn cache_state(&self) -> Option<AddressCache> {
        self.cache
    }

    pub closed spec fn metrics_state(&self) -> Option<Bip353Metrics> {
        self.metrics
    }

    /// A cache, where there is one, stores each key once.
    pub open spec fn wf(&self) -> bool {
        self.cache_state() matches Some(c) ==> c.wf()
    }

    /// Create a new resolver with default configuration
    pub fn new() -> (r: Result<Self, Bip353Error>)
        ensures
            r matches Ok(s) && s.wf() && s.kind() == ResolverType::DNS && is_default_config(
                s.settings(),
            ) && s.cache_state() is None && s.metrics_state() is None,
    {
        Self::with_config(ResolverConfig::default())
    }

    /// Create a new resolver with custom configuration
    pub fn with_config(config: ResolverConfig) -> (r: Result<Self, Bip353Error>)
        ensures
            r matches Ok(s) && s.wf() && s.kind() == ResolverType::DNS && s.settings() == config
                && s.cache_state() is None && s.metrics_state() is None,
    {
        Ok(Bip353Resolver { resolver_type: ResolverType::DNS, config, cache: None, metrics: None })
    }

    /// Create a new resolver with a specific type
    pub fn with_type(resolver_type: ResolverType) -> (r: Result<Self, Bip353Error>)
        ensures
            r matches Ok(s) && s.wf() && s.kind() == resolver_type && is_default_config(
                s.settings(),
            ) && s.cache_state() is None && s.metrics_state() is None,
    {
        Ok(
            Bip353Resolver {
                resolver_type,
                config: ResolverConfig::default(),
                cache: None,
                metrics: None,
            },
        )
    }

    /// Create a new resolver with an optional cache, whose entries live
    /// `cache_ttl_ms` milliseconds, and optional counters.
    pub fn with_enhanced_config(
        config: ResolverConfig,
        enable_cache: bool,
        cache_ttl_ms: u64,
        enable_metrics: bool,
    ) -> (r: Result<Self, Bip353Error>)
        ensures
            r matches Ok(s) && s.wf() && s.kind() == ResolverType::DNS && s.settings() == config
                && (s.cache_state() is Some <==> enable_cache) && (s.cache_state() matches Some(c)
                ==> c.contents().is_empty() && c.ttl() == cache_ttl_ms) && (s.metrics_state()
                is Some <==> enable_metrics) && (s.metrics_state() matches Some(m)
                ==> m.is_zero()),
    {
        let cache = if enable_cache {
            Some(AddressCache::new(cache_ttl_ms))
        } else {
            None
        };
        let metrics = if enable_metrics {
            Some(Bip353Metrics::new())
        } else {
            None
        };
        Ok(Bip353Resolver { resolver_type: ResolverType::DNS, config, cache, metrics })
    }

    /// The backend kind, fixed for the resolver's lifetime.
    pub fn resolver_type(&self) -> (r: ResolverType)
        ensures
            r == self.kind(),
    {
        self.resolver_type
    }

    /// The configuration.
    pub fn config(&self) -> (r: ResolverConfig)
        ensures
            r == self.settings(),
    {
        self.config
    }

    /// The address `user@domain`, as the backend and the cache take it.
    pub fn hrn(user: &str, domain: &str) -> (r: String)
        ensures
            r@ == hrn_of(user@, domain@),
    {
        let mut r = String::from_str(user);
        r.append("@");
        r.append(domain);
        proof {
            reveal_strlit("@");
        }
        assert(r@ =~= hrn_of(user@, domain@));
        r
    }

    /// The result of a resolution, given what the backend answered.
    pub fn resolve_outcome(outcome: Result<OriginalInstructions, BackendFailure>) -> (r: Result<
        PaymentInfo,
        Bip353Error,
    >)
        ensures
            outcome matches Ok(i) ==> built_from(i, r),
            outcome matches Err(f) ==> (r matches Err(e) && error_for(f, e)),
    {
        match outcome {
            Ok(instructions) => payment_info_from_original(instructions),
            Err(f) => Err(Bip353Error::from_failure(f)),
        }
    }

    /// Warning checks that need no blockchain access; none exist yet.
    fn check_basic_warnings(&self, _payment_info: &PaymentInfo) -> (r: Vec<AddressWarning>)
        ensures
            r@.len() == 0,
    {
        Vec::new()
    }

    /// The cache's answer for `user@domain` at `now_ms`, with nothing counted: a
    /// live cached answer with no warnings, or the key the backend is to be
    /// asked for. Needs only shared access.
    pub fn cached_answer(&self, user: &str, domain: &str, now_ms: u64) -> (r: SafetyStep)
        requires
            self.wf(),
        ensures
            answers(self.cache_state(), hrn_of(user@, domain@), now_ms, r),
    {
        let key = Self::hrn(user, domain);
        let found = match &self.cache {
            Some(c) => c.get(key.as_str(), now_ms),
            None => None,
        };
        match found {
            Some(info) => SafetyStep::Cached(
                SafePaymentInfo { payment_info: info, warnings: Vec::new(), last_checked_ms: now_ms },
            ),
            None => SafetyStep::Resolve(key),
        }
    }

    /// Counts a cache lookup as a hit or a miss; nothing is counted without a
    /// cache, or without metrics.
    pub fn note_cache_lookup(&mut self, hit: bool)
        requires
            old(self).wf(),
        ensures
            final(self).wf(),
            final(self).kind() == old(self).kind(),
            final(self).settings() == old(self).settings(),
            final(self).cache_state() == old(self).cache_state(),
            old(self).cache_state() is None ==> metrics_kept(
                old(self).metrics_state(),
                final(self).metrics_state(),
            ),
            old(self).cache_state() is Some && hit ==> metrics_step(
                old(self).metrics_state(),
                final(self).metrics_state(),
                |a: &Bip353Metrics, b: &Bip353Metrics| Bip353Metrics::after_hit(a, b),
            ),
            old(self).cache_state() is Some && !hit ==> metrics_step(
                old(self).metrics_state(),
                final(self).metrics_state(),
                |a: &Bip353Metrics, b: &Bip353Metrics| Bip353Metrics::after_miss(a, b),
            ),
    {
        if self.cache.is_some() {
            if let Some(m) = &mut self.metrics {
                if hit {
                    m.record_cache_hit();
                } else {
                    m.record_cache_miss();
                }
            }
        }
    }

    /// First step of a safety checked resolution of `user@domain` at `now_ms`:
    /// the cache's answer, counted as a hit or, where there is a cache, a miss.
    pub fn begin_safety_check(&mut self, user: &str, domain: &str, now_ms: u64) -> (r: SafetyStep)
        requires
            old(self).wf(),
        ensures
            final(self).wf(),
            final(self).kind() == old(self).kind(),
            final(self).settings() == old(self).settings(),
            final(self).cache_state() == old(self).cache_state(),
            answers(old(self).cache_state(), hrn_of(user@, domain@), now_ms, r),
            old(self).cache_state() is None ==> metrics_kept(
                old(self).metrics_state(),
                final(self).metrics_state(),
            ),
            old(self).cache_state() is Some && r is Cached ==> metrics_step(
                old(self).metrics_state(),
                final(self).metrics_state(),
                |a: &Bip353Metrics, b: &Bip353Metrics| Bip353Metrics::after_hit(a, b),
            ),
            old(self).cache_state() is Some && r is Resolve ==> metrics_step(
                old(self).metrics_state(),
                final(self).metrics_state(),
                |a: &Bip353Metrics, b: &Bip353Metrics| Bip353Metrics::after_miss(a, b),
            ),
    {
        let step = self.cached_answer(user, domain, now_ms);
        let hit = match &step {
            SafetyStep::Cached(_) => true,
            SafetyStep::Resolve(_) => false,
        };
        self.note_cache_lookup(hit);
        step
    }

    /// Second step: records the backend's `outcome` for `key`, resolved at
    /// `now_ms` in `elapsed_ms`. A success is stored in the cache, counted, and
    /// returned with the warnings found (none yet); a failure is counted and
    /// returned as it is, and nothing is stored.
    pub fn finish_safety_check(
        &mut self,
        key: String,
        domain: &str,
        outcome: Result<PaymentInfo, Bip353Error>,
        elapsed_ms: u64,
        now_ms: u64,
    ) -> (r: Result<SafePaymentInfo, Bip353Error>)
        requires
            old(self).wf(),
            outcome matches Ok(info) ==> info.wf(),
        ensures
            final(self).wf(),
            final(self).kind() == old(self).kind(),
            final(self).settings() == old(self).settings(),
            outcome matches Err(e) ==> r == Err::<SafePaymentInfo, Bip353Error>(e)
                && final(self).cache_state() == old(self).cache_state() && metrics_step(
                old(self).metrics_state(),
                final(self).metrics_state(),
                |a: &Bip353Metrics, b: &Bip353Metrics| Bip353Metrics::after_failure(a, b),
            ),
            outcome matches Ok(info) ==> (r matches Ok(s) && s.payment_info == info
                && s.warnings@.len() == 0 && s.last_checked_ms == now_ms) && metrics_step(
                old(self).metrics_state(),
                final(self).metrics_state(),
                |a: &Bip353Metrics, b: &Bip353Metrics| Bip353Metrics::after_success(a, b),
            ) && match (old(self).cache_state(), final(self).cache_state()) {
                (Some(c0), Some(c1)) => {
                    &&& c1.contents().dom() == c0.contents().dom().insert(key@)
                    &&& c1.contents().remove(key@) == c0.contents().remove(key@)
                    &&& c1.contents()[key@].payment_info.same_as(&info)
                    &&& c1.contents()[key@].cached_at_ms == now_ms
                    &&& c1.contents()[key@].ttl_ms == c0.ttl()
                    &&& c1.ttl() == c0.ttl()
                },
                (None, None) => true,
                _ => false,
            },
    {
        match outcome {
            Ok(info) => {
                if let Some(c) = &mut self.cache {
                    let copy = info.duplicate();
                    c.insert(key, copy, now_ms);
                }
                if let Some(m) = &mut self.metrics {
                    m.record_resolution_success(domain, elapsed_ms);
                }
                let warnings = self.check_basic_warnings(&info);
                Ok(SafePaymentInfo { payment_info: info, warnings, last_checked_ms: now_ms })
            },
            Err(e) => {
                if let Some(m) = &mut self.metrics {
                    m.record_resolution_failure(domain, e.kind());
                }
                Err(e)
            },
        }
    }

    /// Clear cache
    pub fn clear_cache(&mut self)
        requires
            old(self).wf(),
        ensures
            final(self).wf(),
            final(self).kind() == old(self).kind(),
            final(self).settings() == old(self).settings(),
            final(self).metrics_state() == old(self).metrics_state(),
            old(self).cache_state() is None ==> final(self).cache_state() is None,
            old(self).cache_state() matches Some(c0) ==> (final(self).cache_state() matches Some(c1)
                && c1.contents().is_empty() && c1.ttl() == c0.ttl()),
    {
        if let Some(c) = &mut self.cache {
            c.clear();
        }
    }

    /// Invalidate specific cache entry
    pub fn invalidate_cache(&mut self, hrn: &str)
        requires
            old(self).wf(),
        ensures
            final(self).wf(),
            final(self).kind() == old(self).kind(),
            final(self).settings() == old(self).settings(),
            final(self).metrics_state() == old(self).metrics_state(),
            old(self).cache_state() is None ==> final(self).cache_state() is None,
            old(self).cache_state() matches Some(c0) ==> (final(self).cache_state() matches Some(c1)
                && c1.contents() == c0.contents().remove(hrn@) && c1.ttl() == c0.ttl()),
    {
        if let Some(c) = &mut self.cache {
            c.invalidate(hrn);
        }
    }

    /// Get metrics if enabled
    pub fn get_metrics(&self) -> (r: Option<ResolutionStats>)
        ensures
            self.metrics_state() is None <==> r is None,
            r matches Some(s) ==> s.total == self.metrics_state()->Some_0.total() && s.success
                == self.metrics_state()->Some_0.success() && s.failed
                == self.metrics_state()->Some_0.failed() && s.total == s.success + s.failed,
    {
        match &self.metrics {
            Some(m) => Some(m.get_resolution_stats()),
            None => None,
        }
    }

    /// Cache statistics, if metrics are enabled
    pub fn get_cache_stats(&self) -> (r: Option<CacheStats>)
        ensures
            self.metrics_state() is None <==> r is None,
            r matches Some(s) ==> s.hits == self.metrics_state()->Some_0.hits() && s.misses
                == self.metrics_state()->Some_0.misses() && s.total == s.hits + s.misses,
    {
        match &self.metrics {
            Some(m) => Some(m.get_cache_stats()),
            None => None,
        }
    }
}

} // verus!
