//! The part of the foreign-call boundary that decides: which network a name
//! selects, and the flat record a resolution becomes before it is handed over.

use vstd::prelude::*;
use vstd::string::*;

use crate::config::{is_default_config, Network, ResolverConfig};
use crate::error::{error_text, Bip353Error};
use crate::resolver::{Bip353Resolver, ResolverType};
use crate::types::{payment_type_text, PaymentInfo};

verus! {

/// The network a name selects: `mainnet`, `testnet`, `signet` or `regtest`.
pub open spec fn network_named(name: Seq<char>) -> Option<Network> {
    if name == "mainnet"@ {
        Some(Network::Mainnet)
    } else if name == "testnet"@ {
        Some(Network::Testnet)
    } else if name == "signet"@ {
        Some(Network::Signet)
    } else if name == "regtest"@ {
        Some(Network::Regtest)
    } else {
        None
    }
}

/// The network a name selects, or `None` for a name of no network.
pub fn network_from_name(name: &str) -> (r: Option<Network>)
    ensures
        r == network_named(name@),
{
    let n = String::from_str(name);
    if n == String::from_str("mainnet") {
        Some(Network::Mainnet)
    } else if n == String::from_str("testnet") {
        Some(Network::Testnet)
    } else if n == String::from_str("signet") {
        Some(Network::Signet)
    } else if n == String::from_str("regtest") {
        Some(Network::Regtest)
    } else {
        None
    }
}

/// A resolver with the default configuration on the named network; `None` for
/// a name of no network.
pub fn resolver_for_network(name: &str) -> (r: Option<Bip353Resolver>)
    ensures
        r is None <==> network_named(name@) is None,
        r matches Some(s) ==> {
            &&& s.wf()
            &&& s.kind() == ResolverType::DNS
            &&& Some(s.settings().network) == network_named(name@)
            &&& is_default_config(ResolverConfig { network: Network::Mainnet, ..s.settings() })
            &&& s.cache_state() is None
            &&& s.metrics_state() is None
        },
{
    let network = network_from_name(name)?;
    let config = ResolverConfig::default().with_network(network);
    match Bip353Resolver::with_config(config) {
        Ok(s) => Some(s),
        Err(_) => None,
    }
}

/// A resolution flattened for a foreign caller: on success the URI, the type's
/// name and reusability; on failure the error's text. Each text is owned by the
/// record alone.
#[derive(Debug)]
pub struct ForeignResult {
    pub success: bool,
    pub uri: Option<String>,
    pub payment_type: Option<String>,
    pub is_reusable: bool,
    pub error: Option<String>,
}

impl ForeignResult {
    /// The flat record of a resolution.
    pub fn from_resolution(result: Result<PaymentInfo, Bip353Error>) -> (r: ForeignResult)
        ensures
            result matches Ok(info) ==> {
                &&& r.success
                &&& r.uri matches Some(u) && u@ == info.uri@
                &&& r.payment_type matches Some(t) && t@ == payment_type_text(info.payment_type)
                &&& r.is_reusable == info.is_reusable
                &&& r.error is None
            },
            result matches Err(e) ==> {
                &&& !r.success
                &&& r.uri is None
                &&& r.payment_type is None
                &&& !r.is_reusable
                &&& r.error matches Some(m) && m@ == error_text(e)
            },
    {
        match result {
            Ok(info) => ForeignResult {
                success: true,
                payment_type: Some(info.payment_type.to_string()),
                is_reusable: info.is_reusable,
                uri: Some(info.uri),
                error: None,
            },
            Err(e) => ForeignResult {
                success: false,
                uri: None,
                payment_type: None,
                is_reusable: false,
                error: Some(e.to_string_representation()),
            },
        }
    }
}

} // verus!
