use bip353::{
    payment_info_from_original, AddressCache, Bip353Metrics, OriginalInstructions, PaymentInfo,
    PaymentMethod,
};

fn info(addr: &str) -> PaymentInfo {
    payment_info_from_original(OriginalInstructions::FixedAmount {
        methods: vec![PaymentMethod::OnChain(addr.to_string())],
        max_amount_msats: None,
    })
    .unwrap()
}

#[test]
fn cached_value_is_found_until_ttl_elapses() {
    let mut c = AddressCache::new(300_000);
    c.insert("alice@example.com".to_string(), info("bc1qa"), 1_000);
    assert_eq!(c.get("alice@example.com", 1_000).unwrap().uri, "bitcoin:bc1qa");
    assert_eq!(c.get("alice@example.com", 300_999).unwrap().uri, "bitcoin:bc1qa");
    assert!(c.get("alice@example.com", 301_000).is_none());
    // a clock that went backwards finds nothing
    assert!(c.get("alice@example.com", 999).is_none());
    // an expired read leaves the entry, and a refresh restamps it
    c.insert("alice@example.com".to_string(), info("bc1qb"), 400_000);
    assert_eq!(c.get("alice@example.com", 400_001).unwrap().uri, "bitcoin:bc1qb");
}

#[test]
fn invalidate_and_clear_remove_entries() {
    let mut c = AddressCache::new(10_000);
    c.insert("a@x".to_string(), info("1"), 0);
    c.insert("b@x".to_string(), info("2"), 0);
    c.invalidate("a@x");
    assert!(c.get("a@x", 1).is_none());
    assert_eq!(c.get("b@x", 1).unwrap().uri, "bitcoin:2");
    c.clear();
    assert!(c.get("b@x", 1).is_none());
    assert_eq!(c.default_ttl(), 10_000);
}

#[test]
fn zero_ttl_cache_never_hits() {
    let mut c = AddressCache::new(0);
    c.insert("a@x".to_string(), info("1"), 5);
    assert!(c.get("a@x", 5).is_none());
}

#[test]
fn metrics_totals_agree_and_rates_start_at_zero() {
    let mut m = Bip353Metrics::new();
    let s = m.get_resolution_stats();
    assert_eq!((s.total, s.success, s.failed), (0, 0, 0));
    assert_eq!(s.success_rate(), (0, 1));
    assert_eq!(m.get_cache_stats().hit_rate(), (0, 1));
    m.record_resolution_success("example.com", 12);
    m.record_resolution_success("example.com", 7);
    m.record_resolution_failure("example.org", "dns");
    let s = m.get_resolution_stats();
    assert_eq!((s.total, s.success, s.failed), (3, 2, 1));
    assert_eq!(s.total, s.success + s.failed);
    assert_eq!(s.success_rate(), (2, 3));
    m.record_cache_hit();
    m.record_cache_miss();
    m.record_cache_miss();
    let c = m.get_cache_stats();
    assert_eq!((c.hits, c.misses, c.total), (1, 2, 3));
    assert_eq!(c.hit_rate(), (1, 3));
    m.record_address_reuse();
    assert_eq!(m.address_reuse_count(), 1);
}
