//! Resolution of human-readable Bitcoin payment addresses (`user@domain`, BIP-353)
//! into payment instructions, with a TTL cache, counters and a flat result form
//! for foreign callers.

mod address;
mod assoc;
mod backend;
mod boundary;
mod cache;
mod config;
mod error;
mod metrics;
mod monitoring;
mod resolver;
mod text;
mod types;
mod wallet;

pub use address::{lemma_parse_idempotent, lemma_parse_normalizes, parse_address, parse_spec};
pub use error::Bip353Error;
pub use types::{
    payment_info_from_original, uri_for, OriginalInstructions, PaymentInfo, PaymentMethod,
    PaymentType,
};
pub use config::{DnsEndpoint, IpAddress, Network, ResolverConfig};
pub use metrics::{Bip353Metrics, CacheStats, ResolutionStats};
pub use cache::{lemma_cache_law, lookup, AddressCache, CacheEntry};
pub use error::BackendFailure;
pub use resolver::{AddressWarning, Bip353Resolver, ResolverType, SafePaymentInfo, SafetyStep};
pub use boundary::{network_from_name, resolver_for_network, ForeignResult};
pub use monitoring::ChainMonitor;
pub use wallet::{WalletIntegrationHelper, WalletMetadata, WalletPaymentInfo, WalletType};
