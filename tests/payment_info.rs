use bip353::{
    payment_info_from_original, uri_for, BackendFailure, Bip353Error, OriginalInstructions,
    PaymentInfo, PaymentMethod, PaymentType,
};

fn fixed(methods: Vec<PaymentMethod>, max: Option<u64>) -> OriginalInstructions {
    OriginalInstructions::FixedAmount { methods, max_amount_msats: max }
}

#[test]
fn test_payment_type_display() {
    assert_eq!(PaymentType::OnChain.to_string(), "on-chain");
    assert_eq!(PaymentType::Lightning.to_string(), "lightning");
    assert_eq!(PaymentType::LightningOffer.to_string(), "lightning-offer");
    assert_eq!(PaymentType::Unknown.to_string(), "unknown");
}

#[test]
fn single_onchain_method_without_amount() {
    let info = payment_info_from_original(fixed(
        vec![PaymentMethod::OnChain("1Addr...".to_string())],
        None,
    ))
    .unwrap();
    assert_eq!(info.uri, "bitcoin:1Addr...");
    assert_eq!(info.payment_type, PaymentType::OnChain);
    assert!(info.is_reusable);
    assert!(info.parameters.is_empty());
}

#[test]
fn single_bolt11_invoice() {
    let info = payment_info_from_original(fixed(
        vec![PaymentMethod::LightningBolt11("lnbc1...".to_string())],
        None,
    ))
    .unwrap();
    assert_eq!(info.uri, "bitcoin:?lightning=lnbc1...");
    assert_eq!(info.payment_type, PaymentType::Lightning);
    assert!(!info.is_reusable);
    assert_eq!(info.get_parameter("lightning"), Some("lnbc1...".to_string()));
}

#[test]
fn bolt12_offer_is_reusable() {
    let info = payment_info_from_original(OriginalInstructions::ConfigurableAmount {
        methods: vec![PaymentMethod::LightningBolt12("lno1qq".to_string())],
    })
    .unwrap();
    assert_eq!(info.uri, "bitcoin:?lno=lno1qq");
    assert_eq!(info.payment_type, PaymentType::LightningOffer);
    assert!(info.is_reusable);
}

#[test]
fn onchain_amount_is_written_in_bitcoin_rounded_up_to_sats() {
    let info = payment_info_from_original(fixed(
        vec![PaymentMethod::OnChain("bc1qxyz".to_string())],
        Some(150_001),
    ))
    .unwrap();
    assert_eq!(info.uri, "bitcoin:bc1qxyz?amount=0.00000151");
    assert_eq!(info.get_parameter("amount"), Some("0.00000151".to_string()));
    let whole = uri_for(&fixed(vec![PaymentMethod::OnChain("a".to_string())], Some(100_000_000_000))).unwrap();
    assert_eq!(whole, "bitcoin:a?amount=1");
}

#[test]
fn amount_only_follows_an_onchain_first_method() {
    let info = payment_info_from_original(fixed(
        vec![
            PaymentMethod::LightningBolt11("lnbc9".to_string()),
            PaymentMethod::OnChain("bc1q".to_string()),
        ],
        Some(5_000),
    ))
    .unwrap();
    assert_eq!(info.uri, "bitcoin:?lightning=lnbc9");
    // the last method decides the type; the invoice still makes it single-use
    assert_eq!(info.payment_type, PaymentType::OnChain);
    assert!(!info.is_reusable);
}

#[test]
fn configurable_pay_on_demand_first_gives_bare_uri() {
    let info = payment_info_from_original(OriginalInstructions::ConfigurableAmount {
        methods: vec![PaymentMethod::PayOnDemand("https://x/cb".to_string())],
    })
    .unwrap();
    assert_eq!(info.uri, "bitcoin:");
    assert_eq!(info.payment_type, PaymentType::Lightning);
    assert!(!info.is_reusable);
    assert!(info.parameters.is_empty());
}

#[test]
fn configurable_onchain_carries_no_amount() {
    let info = payment_info_from_original(OriginalInstructions::ConfigurableAmount {
        methods: vec![PaymentMethod::OnChain("bc1qa".to_string())],
    })
    .unwrap();
    assert_eq!(info.uri, "bitcoin:bc1qa");
}

#[test]
fn no_methods_is_an_invalid_record() {
    let r = payment_info_from_original(fixed(vec![], Some(1000)));
    assert!(matches!(r, Err(Bip353Error::InvalidRecord(_))));
    let r = payment_info_from_original(OriginalInstructions::ConfigurableAmount { methods: vec![] });
    assert!(matches!(r, Err(Bip353Error::InvalidRecord(_))));
}

#[test]
fn parameters_split_on_first_question_mark_and_later_keys_win() {
    let info = PaymentInfo::from_instructions(
        fixed(vec![PaymentMethod::OnChain("a".to_string())], None),
        "bitcoin:a?x=1&flag&y=2=3&x=4&=e&z=".to_string(),
    );
    assert_eq!(info.get_parameter("x"), Some("4".to_string()));
    assert_eq!(info.get_parameter("y"), Some("2=3".to_string()));
    assert_eq!(info.get_parameter(""), Some("e".to_string()));
    assert_eq!(info.get_parameter("z"), Some(String::new()));
    assert_eq!(info.get_parameter("flag"), None);
    assert_eq!(info.parameters.len(), 4);
}

#[test]
fn cashu_request_sets_unknown_type() {
    let info = payment_info_from_original(fixed(
        vec![
            PaymentMethod::LightningBolt12("lno1".to_string()),
            PaymentMethod::Cashu("creqA".to_string()),
        ],
        None,
    ))
    .unwrap();
    assert_eq!(info.uri, "bitcoin:?lno=lno1");
    assert_eq!(info.payment_type, PaymentType::Unknown);
    assert!(info.is_reusable);
}

#[test]
fn backend_failures_map_to_errors() {
    match Bip353Error::from_failure(BackendFailure::HrnResolutionError("DNS resolution failed".to_string())) {
        Bip353Error::DnsError(m) => assert_eq!(m, "DNS resolution failed"),
        other => panic!("{other:?}"),
    }
    match Bip353Error::from_failure(BackendFailure::InconsistentInstructions("amounts differ".to_string())) {
        Bip353Error::InvalidRecord(m) => assert_eq!(m, "Inconsistent payment instructions: amounts differ"),
        other => panic!("{other:?}"),
    }
    for f in [
        BackendFailure::InvalidBolt11,
        BackendFailure::InvalidBolt12,
        BackendFailure::InvalidOnChain,
        BackendFailure::InvalidCashu,
        BackendFailure::WrongNetwork,
        BackendFailure::UnknownPaymentInstructions,
        BackendFailure::UnknownRequiredParameter,
        BackendFailure::InstructionsExpired,
    ] {
        assert!(matches!(Bip353Error::from_failure(f), Bip353Error::InvalidRecord(_)));
    }
    match Bip353Error::from_failure(BackendFailure::InstructionsExpired) {
        Bip353Error::InvalidRecord(m) => assert_eq!(m, "Payment instructions have expired"),
        other => panic!("{other:?}"),
    }
}

#[test]
fn error_text_names_the_kind() {
    assert_eq!(Bip353Error::DnsError("x".to_string()).to_string_representation(), "DNS error: x");
    assert_eq!(Bip353Error::InvalidAddress("y".to_string()).to_string_representation(), "Invalid address: y");
    assert_eq!(Bip353Error::InvalidRecord("z".to_string()).to_string_representation(), "Invalid record: z");
    assert_eq!(Bip353Error::DnssecError("d".to_string()).to_string_representation(), "DNSSEC error: d");
    assert_eq!(Bip353Error::ImplError("i".to_string()).to_string_representation(), "Implementation error: i");
    assert_eq!(Bip353Error::NetworkError("n".to_string()).to_string_representation(), "Network error: n");
    assert_eq!(Bip353Error::NetworkError("n".to_string()).kind(), "network");
}

#[test]
fn amount_above_all_bitcoin_is_an_invalid_record() {
    let too_much = 2_100_000_000_000_000_001u64;
    let r = payment_info_from_original(fixed(vec![PaymentMethod::OnChain("bc1q".to_string())], Some(too_much)));
    assert!(matches!(r, Err(Bip353Error::InvalidRecord(_))));
    assert!(uri_for(&fixed(vec![PaymentMethod::OnChain("bc1q".to_string())], Some(u64::MAX))).is_none());
    // the bound matters only where the amount is written
    let info = payment_info_from_original(fixed(
        vec![PaymentMethod::LightningBolt11("lnbc1".to_string())],
        Some(too_much),
    ))
    .unwrap();
    assert_eq!(info.uri, "bitcoin:?lightning=lnbc1");
    let most = uri_for(&fixed(vec![PaymentMethod::OnChain("a".to_string())], Some(2_100_000_000_000_000_000))).unwrap();
    assert_eq!(most, "bitcoin:a?amount=21000000");
}
