//! Resolver configuration: an immutable value with builder-style overrides.

use vstd::prelude::*;

verus! {

/// The Bitcoin network whose payment instructions are accepted.
#[derive(Debug, Clone, Copy, PartialEq, Eq, Structural)]
pub enum Network {
    Mainnet,
    Testnet,
    Signet,
    Regtest,
}

/// An IP address.
#[derive(Debug, Clone, Copy)]
pub enum IpAddress {
    V4([u8; 4]),
    V6([u16; 8]),
}

/// The address and port of a recursive DNS resolver.
#[derive(Debug, Clone, Copy)]
pub struct DnsEndpoint {
    pub ip: IpAddress,
    pub port: u16,
}

/// Configuration for BIP-353 resolver
#[derive(Debug, Clone, Copy)]
pub struct ResolverConfig {
    /// The DNS resolver to use (IP and port)
    pub dns_resolver: DnsEndpoint,
    /// Whether to enforce DNSSEC validation
    pub enforce_dnssec: bool,
    /// Timeout for DNS queries in milliseconds
    pub timeout_ms: u64,
    /// Whether to allow HTTP resolution fallback
    pub allow_http_fallback: bool,
    /// Network to use for parsing payment instructions
    pub network: Network,
}

/// The default configuration: Google's resolver at 8.8.8.8:53, DNSSEC enforced,
/// five seconds, HTTP fallback allowed, main network.
pub open spec fn is_default_config(c: ResolverConfig) -> bool {
    &&& c.dns_resolver.ip matches IpAddress::V4(o) && o@ == seq![8u8, 8u8, 8u8, 8u8]
    &&& c.dns_resolver.port == 53
    &&& c.enforce_dnssec
    &&& c.timeout_ms == 5000
    &&& c.allow_http_fallback
    &&& c.network == Network::Mainnet
}

impl Default for ResolverConfig {
    fn default() -> (r: Self)
        ensures
            is_default_config(r),
    {
        ResolverConfig {
            dns_resolver: DnsEndpoint { ip: IpAddress::V4([8, 8, 8, 8]), port: 53 },
            enforce_dnssec: true,
            timeout_ms: 5000,
            allow_http_fallback: true,
            network: Network::Mainnet,
        }
    }
}

impl ResolverConfig {
    /// The default configuration on a given network.
    fn default_on(network: Network) -> (r: Self)
        ensures
            r.network == network,
            is_default_config(ResolverConfig { network: Network::Mainnet, ..r }),
    {
        let mut c = ResolverConfig::default();
        c.network = network;
        c
    }

    /// Create a configuration for testnet
    pub fn testnet() -> (r: Self)
        ensures
            r.network == Network::Testnet,
            is_default_config(ResolverConfig { network: Network::Mainnet, ..r }),
    {
        Self::default_on(Network::Testnet)
    }

    /// Create a configuration for signet
    pub fn signet() -> (r: Self)
        ensures
            r.network == Network::Signet,
            is_default_config(ResolverConfig { network: Network::Mainnet, ..r }),
    {
        Self::default_on(Network::Signet)
    }

    /// Create a configuration for regtest
    pub fn regtest() -> (r: Self)
        ensures
            r.network == Network::Regtest,
            is_default_config(ResolverConfig { network: Network::Mainnet, ..r }),
    {
        Self::default_on(Network::Regtest)
    }

    /// Set the DNS resolver
    pub fn with_dns_resolver(self, resolver: DnsEndpoint) -> (r: Self)
        ensures
            r == (ResolverConfig { dns_resolver: resolver, ..self }),
    {
        ResolverConfig { dns_resolver: resolver, ..self }
    }

    /// Set the DNSSEC enforcement
    pub fn with_dnssec(self, enforce: bool) -> (r: Self)
        ensures
            r == (ResolverConfig { enforce_dnssec: enforce, ..self }),
    {
        ResolverConfig { enforce_dnssec: enforce, ..self }
    }

    /// Set the timeout, in milliseconds
    pub fn with_timeout(self, timeout_ms: u64) -> (r: Self)
        ensures
            r == (ResolverConfig { timeout_ms: timeout_ms, ..self }),
    {
        ResolverConfig { timeout_ms, ..self }
    }

    /// Set whether to allow HTTP fallback
    pub fn with_http_fallback(self, allow: bool) -> (r: Self)
        ensures
            r == (ResolverConfig { allow_http_fallback: allow, ..self }),
    {
        ResolverConfig { allow_http_fallback: allow, ..self }
    }

    /// Set the network
    pub fn with_network(self, network: Network) -> (r: Self)
        ensures
            r == (ResolverConfig { network: network, ..self }),
    {
        ResolverConfig { network, ..self }
    }

    /// The timeout, in milliseconds
    pub fn timeout(&self) -> (r: u64)
        ensures
            r == self.timeout_ms,
    {
        self.timeout_ms
    }
}

} // verus!
