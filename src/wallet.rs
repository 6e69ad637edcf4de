//! Helpers that prepare resolved information for wallets: labels, display
//! names and the parameters of a payment URI. No wallet logic lives here.

use vstd::prelude::*;
use vstd::string::*;

use crate::assoc::{assoc_map, keys_unique};
use crate::types::{params_view, PaymentInfo};

verus! {

/// Example wallet types
#[derive(Debug, Clone, Copy, PartialEq, Eq, Structural)]
pub enum WalletType {
    Sparrow,
    Electrum,
    BitcoinCore,
    BDK,
}

/// The name of a wallet type.
pub open spec fn wallet_type_text(t: WalletType) -> Seq<char> {
    match t {
        WalletType::Sparrow => "sparrow"@,
        WalletType::Electrum => "electrum"@,
        WalletType::BitcoinCore => "bitcoin-core"@,
        WalletType::BDK => "bdk"@,
    }
}

impl WalletType {
    /// The name of the wallet type.
    pub fn to_string(&self) -> (r: String)
        ensures
            r@ == wallet_type_text(*self),
    {
        match self {
            WalletType::Sparrow => String::from_str("sparrow"),
            WalletType::Electrum => String::from_str("electrum"),
            WalletType::BitcoinCore => String::from_str("bitcoin-core"),
            WalletType::BDK => String::from_str("bdk"),
        }
    }
}

/// Metadata that different wallet types might need
#[derive(Debug)]
pub struct WalletMetadata {
    /// Original BIP-353 address (for labeling)
    pub original_address: String,
    /// DNSSEC proof (for hardware wallet verification)
    pub dnssec_proof: Option<Vec<u8>>,
    /// Suggested label for the transaction
    pub suggested_label: String,
    /// Additional parameters for specific wallet types, each key once
    pub wallet_specific: Vec<(String, String)>,
}

/// Metadata that wallets can use for BIP-353 payments
#[derive(Debug)]
pub struct WalletPaymentInfo {
    /// The resolved payment info
    pub payment_info: PaymentInfo,
    /// Human-readable name for display
    pub display_name: String,
    /// Metadata for wallet integration
    pub metadata: WalletMetadata,
}

/// Simple wallet integration helpers
pub struct WalletIntegrationHelper;

/// An address with one leading currency sign: the sign is added unless it is
/// already there.
pub open spec fn display_name_of(address: Seq<char>) -> Seq<char> {
    if address.len() > 0 && address[0] == '\u{20bf}' {
        address
    } else {
        seq!['\u{20bf}'] + address
    }
}

/// The wallet-specific pair for a wallet type, if it has one.
pub open spec fn wallet_pair(t: WalletType, address: Seq<char>) -> Seq<(Seq<char>, Seq<char>)> {
    match t {
        WalletType::Sparrow => seq![("sparrow_memo"@, "Paid to "@ + address)],
        WalletType::Electrum => seq![("electrum_description"@, "BIP-353 payment to "@ + address)],
        WalletType::BitcoinCore => seq![("core_comment"@, "BIP-353: "@ + address)],
        WalletType::BDK => Seq::empty(),
    }
}

/// A fixed lead followed by a text.
fn led(lead: &str, s: &str) -> (r: String)
    ensures
        r@ == lead@ + s@,
{
    let mut r = String::from_str(lead);
    r.append(s);
    r
}

impl WalletIntegrationHelper {
    /// Prepare payment info for wallet integration
    pub fn prepare_for_wallet(
        payment_info: PaymentInfo,
        original_address: &str,
        wallet_type: WalletType,
    ) -> (r: WalletPaymentInfo)
        ensures
            r.payment_info == payment_info,
            r.display_name@ == display_name_of(original_address@),
            r.metadata.original_address@ == original_address@,
            r.metadata.dnssec_proof is None,
            r.metadata.suggested_label@ == "BIP-353: "@ + original_address@,
            params_view(r.metadata.wallet_specific@) == wallet_pair(wallet_type, original_address@),
    {
        let mut wallet_specific: Vec<(String, String)> = Vec::new();
        match wallet_type {
            WalletType::Sparrow => {
                wallet_specific.push(
                    (String::from_str("sparrow_memo"), led("Paid to ", original_address)),
                );
            },
            WalletType::Electrum => {
                wallet_specific.push(
                    (
                        String::from_str("electrum_description"),
                        led("BIP-353 payment to ", original_address),
                    ),
                );
            },
            WalletType::BitcoinCore => {
                wallet_specific.push(
                    (String::from_str("core_comment"), led("BIP-353: ", original_address)),
                );
            },
            WalletType::BDK => {},
        }
        assert(params_view(wallet_specific@) =~= wallet_pair(wallet_type, original_address@));
        let metadata = WalletMetadata {
            original_address: String::from_str(original_address),
            dnssec_proof: None,
            suggested_label: led("BIP-353: ", original_address),
            wallet_specific,
        };
        WalletPaymentInfo {
            payment_info,
            display_name: Self::create_display_name(original_address),
            metadata,
        }
    }

    /// Create a user-friendly display name
    pub fn create_display_name(address: &str) -> (r: String)
        ensures
            r@ == display_name_of(address@),
    {
        let n = address.unicode_len();
        if n > 0 && address.get_char(0) == '\u{20bf}' {
            String::from_str(address)
        } else {
            let r = led("\u{20bf}", address);
            proof {
                reveal_strlit("\u{20bf}");
            }
            assert(r@ =~= seq!['\u{20bf}'] + address@);
            r
        }
    }

    /// The parameters for a BIP-21 URI: those of the payment, with `label` set
    /// to the suggested label and `message` naming the original address.
    pub fn extract_bip21_params(wallet_info: &WalletPaymentInfo) -> (r: Vec<(String, String)>)
        requires
            wallet_info.payment_info.wf(),
        ensures
            keys_unique(params_view(r@)),
            assoc_map(params_view(r@)) == wallet_info.payment_info.parameter_map().insert(
                "label"@,
                wallet_info.metadata.suggested_label@,
            ).insert("message"@, "Payment to "@ + wallet_info.metadata.original_address@),
    {
        let mut params = wallet_info.payment_info.duplicate().parameters;
        crate::types::put_parameter(
            &mut params,
            String::from_str("label"),
            wallet_info.metadata.suggested_label.clone(),
        );
        crate::types::put_parameter(
            &mut params,
            String::from_str("message"),
            led("Payment to ", wallet_info.metadata.original_address.as_str()),
        );
        params
    }
}

} // verus!
