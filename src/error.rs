//! The error type of the library.

use vstd::prelude::*;
use vstd::string::*;

verus! {

/// What can go wrong while parsing or resolving an address.
#[derive(Debug, Clone)]
pub enum Bip353Error {
    /// DNS resolution or DNSSEC validation error
    DnsError(String),
    /// Invalid address format
    InvalidAddress(String),
    /// Invalid record or parsing error
    InvalidRecord(String),
    /// DNSSEC validation failed
    DnssecError(String),
    /// Generic error from the underlying implementation
    ImplError(String),
    /// Network or I/O error
    NetworkError(String),
}

/// The human-readable text of an error: its kind, a colon, and its detail.
pub open spec fn error_text(e: Bip353Error) -> Seq<char> {
    match e {
        Bip353Error::DnsError(m) => "DNS error: "@ + m@,
        Bip353Error::InvalidAddress(m) => "Invalid address: "@ + m@,
        Bip353Error::InvalidRecord(m) => "Invalid record: "@ + m@,
        Bip353Error::DnssecError(m) => "DNSSEC error: "@ + m@,
        Bip353Error::ImplError(m) => "Implementation error: "@ + m@,
        Bip353Error::NetworkError(m) => "Network error: "@ + m@,
    }
}

impl Bip353Error {
    /// The error as text, as it crosses the foreign boundary.
    pub fn to_string_representation(&self) -> (r: String)
        ensures
            r@ == error_text(*self),
    {
        let (prefix, detail) = match self {
            Bip353Error::DnsError(m) => ("DNS error: ", m),
            Bip353Error::InvalidAddress(m) => ("Invalid address: ", m),
            Bip353Error::InvalidRecord(m) => ("Invalid record: ", m),
            Bip353Error::DnssecError(m) => ("DNSSEC error: ", m),
            Bip353Error::ImplError(m) => ("Implementation error: ", m),
            Bip353Error::NetworkError(m) => ("Network error: ", m),
        };
        joined(prefix, detail)
    }
}


/// Why the resolution backend refused to produce instructions.
#[derive(Debug, Clone)]
pub enum BackendFailure {
    /// An invalid BOLT 11 invoice
    InvalidBolt11,
    /// An invalid BOLT 12 offer
    InvalidBolt12,
    /// An invalid on-chain address
    InvalidOnChain,
    /// An invalid Cashu payment request
    InvalidCashu,
    /// An invalid LNURL
    InvalidLnurl(String),
    /// Instructions for another network
    WrongNetwork,
    /// Parts of the instructions disagree
    InconsistentInstructions(String),
    /// The instructions are semantically invalid
    InvalidInstructions(String),
    /// Nothing recognisable as payment instructions
    UnknownPaymentInstructions,
    /// The URI has an unknown required parameter
    UnknownRequiredParameter,
    /// The name could not be resolved
    HrnResolutionError(String),
    /// The instructions have expired
    InstructionsExpired,
}

/// The detail of the `InvalidRecord` error that a failure other than a name
/// resolution failure becomes.
pub open spec fn record_detail(f: BackendFailure) -> Seq<char> {
    match f {
        BackendFailure::InvalidBolt11 => "Invalid Lightning invoice format"@,
        BackendFailure::InvalidBolt12 => "Invalid Lightning offer format"@,
        BackendFailure::InvalidOnChain => "Invalid on-chain address format"@,
        BackendFailure::InvalidCashu => "Invalid Cashu payment request format"@,
        BackendFailure::InvalidLnurl(m) => "Invalid LNURL: "@ + m@,
        BackendFailure::WrongNetwork => "Payment instruction for wrong network"@,
        BackendFailure::InconsistentInstructions(m) => "Inconsistent payment instructions: "@ + m@,
        BackendFailure::InvalidInstructions(m) => "Invalid payment instructions: "@ + m@,
        BackendFailure::UnknownPaymentInstructions => "Unknown payment instruction format"@,
        BackendFailure::UnknownRequiredParameter => "Unknown required parameter in payment URI"@,
        BackendFailure::HrnResolutionError(m) => m@,
        BackendFailure::InstructionsExpired => "Payment instructions have expired"@,
    }
}

/// `e` is the error that the failure `f` becomes: a name resolution failure is a
/// DNS error carrying its message; every other failure is an invalid record.
pub open spec fn error_for(f: BackendFailure, e: Bip353Error) -> bool {
    &&& f is HrnResolutionError ==> (e matches Bip353Error::DnsError(m) && m@ == record_detail(f))
    &&& !(f is HrnResolutionError) ==> (e matches Bip353Error::InvalidRecord(m) && m@
        == record_detail(f))
}

/// The name of an error's kind, as the counters record it.
pub open spec fn kind_text(e: Bip353Error) -> Seq<char> {
    match e {
        Bip353Error::DnsError(_) => "dns"@,
        Bip353Error::InvalidAddress(_) => "invalid_address"@,
        Bip353Error::InvalidRecord(_) => "invalid_record"@,
        Bip353Error::DnssecError(_) => "dnssec"@,
        Bip353Error::ImplError(_) => "implementation"@,
        Bip353Error::NetworkError(_) => "network"@,
    }
}

/// A message joined to a fixed lead.
fn joined(lead: &str, m: &String) -> (r: String)
    ensures
        r@ == lead@ + m@,
{
    let mut r = String::from_str(lead);
    r.append(m.as_str());
    r
}

impl Bip353Error {
    /// The name of the error's kind.
    pub fn kind(&self) -> (r: &'static str)
        ensures
            r@ == kind_text(*self),
    {
        match self {
            Bip353Error::DnsError(_) => "dns",
            Bip353Error::InvalidAddress(_) => "invalid_address",
            Bip353Error::InvalidRecord(_) => "invalid_record",
            Bip353Error::DnssecError(_) => "dnssec",
            Bip353Error::ImplError(_) => "implementation",
            Bip353Error::NetworkError(_) => "network",
        }
    }

    /// The error a backend failure becomes: a name resolution failure is a DNS
    /// error carrying its message; every other failure is an invalid record.
    pub fn from_failure(f: BackendFailure) -> (r: Bip353Error)
        ensures
            error_for(f, r),
    {
        let detail = match &f {
            BackendFailure::InvalidBolt11 => String::from_str("Invalid Lightning invoice format"),
            BackendFailure::InvalidBolt12 => String::from_str("Invalid Lightning offer format"),
            BackendFailure::InvalidOnChain => String::from_str("Invalid on-chain address format"),
            BackendFailure::InvalidCashu => String::from_str("Invalid Cashu payment request format"),
            BackendFailure::InvalidLnurl(m) => joined("Invalid LNURL: ", m),
            BackendFailure::WrongNetwork => String::from_str("Payment instruction for wrong network"),
            BackendFailure::InconsistentInstructions(m) => joined("Inconsistent payment instructions: ", m),
            BackendFailure::InvalidInstructions(m) => joined("Invalid payment instructions: ", m),
            BackendFailure::UnknownPaymentInstructions => String::from_str("Unknown payment instruction format"),
            BackendFailure::UnknownRequiredParameter => String::from_str("Unknown required parameter in payment URI"),
            BackendFailure::HrnResolutionError(m) => m.clone(),
            BackendFailure::InstructionsExpired => String::from_str("Payment instructions have expired"),
        };
        match f {
            BackendFailure::HrnResolutionError(_) => Bip353Error::DnsError(detail),
            _ => Bip353Error::InvalidRecord(detail),
        }
    }
}

} // verus!
