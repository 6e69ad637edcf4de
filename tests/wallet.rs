use bip353::{
    payment_info_from_original, ChainMonitor, OriginalInstructions, PaymentInfo, PaymentMethod,
    WalletIntegrationHelper, WalletType,
};

fn info() -> PaymentInfo {
    payment_info_from_original(OriginalInstructions::FixedAmount {
        methods: vec![PaymentMethod::OnChain("bc1q".to_string())],
        max_amount_msats: Some(1_000_000),
    })
    .unwrap()
}

#[test]
fn wallet_metadata_per_type() {
    let w = WalletIntegrationHelper::prepare_for_wallet(info(), "alice@example.com", WalletType::Sparrow);
    assert_eq!(w.display_name, "₿alice@example.com");
    assert_eq!(w.metadata.suggested_label, "BIP-353: alice@example.com");
    assert_eq!(w.metadata.original_address, "alice@example.com");
    assert!(w.metadata.dnssec_proof.is_none());
    assert_eq!(w.metadata.wallet_specific, vec![("sparrow_memo".to_string(), "Paid to alice@example.com".to_string())]);
    let w = WalletIntegrationHelper::prepare_for_wallet(info(), "₿bob@x.org", WalletType::BDK);
    assert_eq!(w.display_name, "₿bob@x.org");
    assert!(w.metadata.wallet_specific.is_empty());
    let w = WalletIntegrationHelper::prepare_for_wallet(info(), "c@x", WalletType::Electrum);
    assert_eq!(w.metadata.wallet_specific[0].1, "BIP-353 payment to c@x");
    let w = WalletIntegrationHelper::prepare_for_wallet(info(), "c@x", WalletType::BitcoinCore);
    assert_eq!(w.metadata.wallet_specific[0].0, "core_comment");
}

#[test]
fn bip21_params_add_label_and_message() {
    let w = WalletIntegrationHelper::prepare_for_wallet(info(), "alice@example.com", WalletType::BDK);
    let mut p = WalletIntegrationHelper::extract_bip21_params(&w);
    p.sort();
    assert_eq!(
        p,
        vec![
            ("amount".to_string(), "0.00001".to_string()),
            ("label".to_string(), "BIP-353: alice@example.com".to_string()),
            ("message".to_string(), "Payment to alice@example.com".to_string()),
        ]
    );
}

#[test]
fn wallet_type_names_and_placeholder_monitor() {
    assert_eq!(WalletType::BitcoinCore.to_string(), "bitcoin-core");
    assert_eq!(WalletType::Sparrow.to_string(), "sparrow");
    assert!(!ChainMonitor::new().check_address_usage("bc1q"));
}
