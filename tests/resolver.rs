use bip353::{
    network_from_name, payment_info_from_original, resolver_for_network, BackendFailure,
    Bip353Error, Bip353Resolver, DnsEndpoint, ForeignResult, IpAddress, Network,
    OriginalInstructions, PaymentMethod, ResolverConfig, ResolverType, SafetyStep,
};

fn onchain(addr: &str) -> OriginalInstructions {
    OriginalInstructions::FixedAmount {
        methods: vec![PaymentMethod::OnChain(addr.to_string())],
        max_amount_msats: None,
    }
}

#[test]
fn test_enhanced_resolver() {
    let config = ResolverConfig::default();
    let mut resolver = Bip353Resolver::with_enhanced_config(
        config, true, // enable cache
        300_000, // cache TTL
        true, // enable metrics
    )
    .unwrap();

    // Test cache functionality
    resolver.clear_cache();
    resolver.invalidate_cache("test@example.com");

    // Verify enhanced features are enabled
    assert!(resolver.get_cache_stats().is_some());
    assert!(resolver.get_metrics().is_some());
}

#[test]
fn test_resolver_creation() {
    // Default configuration
    let resolver = Bip353Resolver::new();
    assert!(resolver.is_ok());

    // Custom configuration
    let config = ResolverConfig::default()
        .with_timeout(10_000)
        .with_dns_resolver(DnsEndpoint { ip: IpAddress::V4([8, 8, 8, 8]), port: 53 });

    let resolver = Bip353Resolver::with_config(config);
    assert!(resolver.is_ok());

    // Testnet configuration
    let config = ResolverConfig::testnet();
    let resolver = Bip353Resolver::with_config(config);
    assert!(resolver.is_ok());
}

#[test]
fn test_network_config() {
    let config = ResolverConfig::testnet();
    let _resolver = Bip353Resolver::with_config(config).unwrap();
    let config = ResolverConfig::signet();
    let _resolver = Bip353Resolver::with_config(config).unwrap();
    let config = ResolverConfig::regtest();
    let _resolver = Bip353Resolver::with_config(config).unwrap();
}

#[test]
fn config_overrides_leave_other_fields() {
    let d = ResolverConfig::default();
    assert_eq!(d.timeout(), 5000);
    assert!(d.enforce_dnssec && d.allow_http_fallback);
    assert_eq!(d.network, Network::Mainnet);
    let c = d.with_dnssec(false).with_http_fallback(false).with_network(Network::Signet).with_timeout(1);
    assert!(!c.enforce_dnssec && !c.allow_http_fallback);
    assert_eq!(c.network, Network::Signet);
    assert_eq!(c.timeout_ms, 1);
    assert_eq!(c.dns_resolver.port, 53);
    assert_eq!(ResolverConfig::regtest().network, Network::Regtest);
}

#[test]
fn hrn_joins_user_and_domain() {
    assert_eq!(Bip353Resolver::hrn("alice", "example.com"), "alice@example.com");
}

#[test]
fn safety_check_caches_and_counts() {
    let mut r = Bip353Resolver::with_enhanced_config(ResolverConfig::default(), true, 1_000, true).unwrap();
    let key = match r.begin_safety_check("alice", "example.com", 10) {
        SafetyStep::Resolve(k) => k,
        SafetyStep::Cached(_) => panic!("empty cache hit"),
    };
    assert_eq!(key, "alice@example.com");
    let outcome = Bip353Resolver::resolve_outcome(Ok(onchain("1Addr")));
    let safe = r.finish_safety_check(key, "example.com", outcome, 3, 20).unwrap();
    assert_eq!(safe.payment_info.uri, "bitcoin:1Addr");
    assert!(safe.warnings.is_empty());
    assert_eq!(safe.last_checked_ms, 20);
    match r.begin_safety_check("alice", "example.com", 500) {
        SafetyStep::Cached(s) => {
            assert_eq!(s.payment_info.uri, "bitcoin:1Addr");
            assert!(s.warnings.is_empty());
            assert_eq!(s.last_checked_ms, 500);
        }
        SafetyStep::Resolve(_) => panic!("expected a hit"),
    }
    // expired
    assert!(matches!(r.begin_safety_check("alice", "example.com", 1_020), SafetyStep::Resolve(_)));
    let m = r.get_metrics().unwrap();
    assert_eq!((m.total, m.success, m.failed), (1, 1, 0));
    let c = r.get_cache_stats().unwrap();
    assert_eq!((c.hits, c.misses), (1, 2));
}

#[test]
fn safety_check_failure_is_counted_and_not_cached() {
    let mut r = Bip353Resolver::with_enhanced_config(ResolverConfig::default(), true, 1_000, true).unwrap();
    let SafetyStep::Resolve(key) = r.begin_safety_check("bob", "example.org", 0) else { panic!() };
    let outcome = Bip353Resolver::resolve_outcome(Err(BackendFailure::HrnResolutionError("DNS resolution failed".to_string())));
    let e = r.finish_safety_check(key, "example.org", outcome, 1, 1).unwrap_err();
    assert!(matches!(e, Bip353Error::DnsError(_)));
    assert!(matches!(r.begin_safety_check("bob", "example.org", 2), SafetyStep::Resolve(_)));
    let m = r.get_metrics().unwrap();
    assert_eq!((m.total, m.success, m.failed), (1, 0, 1));
}

#[test]
fn without_cache_or_metrics_every_call_resolves() {
    let mut r = Bip353Resolver::with_type(ResolverType::HTTP).unwrap();
    assert_eq!(r.resolver_type(), ResolverType::HTTP);
    let SafetyStep::Resolve(key) = r.begin_safety_check("a", "b", 0) else { panic!() };
    let _ = r.finish_safety_check(key, "b", Bip353Resolver::resolve_outcome(Ok(onchain("x"))), 0, 0).unwrap();
    assert!(matches!(r.begin_safety_check("a", "b", 0), SafetyStep::Resolve(_)));
    assert!(r.get_metrics().is_none());
}

#[test]
fn network_names() {
    assert_eq!(network_from_name("mainnet"), Some(Network::Mainnet));
    assert_eq!(network_from_name("testnet"), Some(Network::Testnet));
    assert_eq!(network_from_name("signet"), Some(Network::Signet));
    assert_eq!(network_from_name("regtest"), Some(Network::Regtest));
    assert_eq!(network_from_name("bogus"), None);
    assert!(resolver_for_network("bogus").is_none());
    assert_eq!(resolver_for_network("signet").unwrap().config().network, Network::Signet);
}

#[test]
fn foreign_result_flattening() {
    let ok = ForeignResult::from_resolution(payment_info_from_original(OriginalInstructions::FixedAmount {
        methods: vec![PaymentMethod::LightningBolt11("lnbc1".to_string())],
        max_amount_msats: None,
    }));
    assert!(ok.success);
    assert_eq!(ok.uri.as_deref(), Some("bitcoin:?lightning=lnbc1"));
    assert_eq!(ok.payment_type.as_deref(), Some("lightning"));
    assert!(!ok.is_reusable);
    assert!(ok.error.is_none());
    let err = ForeignResult::from_resolution(Err(Bip353Error::DnsError("no record".to_string())));
    assert!(!err.success);
    assert!(err.uri.is_none() && err.payment_type.is_none() && !err.is_reusable);
    assert_eq!(err.error.as_deref(), Some("DNS error: no record"));
}

#[test]
fn cache_lookup_without_counting_then_counting() {
    let mut r = Bip353Resolver::with_enhanced_config(ResolverConfig::default(), true, 1_000, true).unwrap();
    assert!(matches!(r.cached_answer("a", "b", 0), SafetyStep::Resolve(_)));
    assert_eq!(r.get_cache_stats().unwrap().total, 0);
    r.note_cache_lookup(false);
    r.note_cache_lookup(true);
    let c = r.get_cache_stats().unwrap();
    assert_eq!((c.hits, c.misses), (1, 1));
    let mut plain = Bip353Resolver::new().unwrap();
    plain.note_cache_lookup(true);
    assert!(plain.get_cache_stats().is_none());
}
