use vstd::prelude::*;
use crate::text::joined;

verus! {

/// Every failure the library reports.
#[derive(Debug, Clone)]
pub enum XnsError {
    DomainNotFound(String),
    InvalidDomain(String),
    NetworkError(String),
    ParseError(String),
    RpcError(String),
    MetadataError(String),
    UnsupportedService(String),
    InternalError(String),
}

impl XnsError {
    pub open spec fn spec_message(&self) -> Seq<char> {
        match self {
            XnsError::DomainNotFound(s) => "Domain not found: "@ + s@,
            XnsError::InvalidDomain(s) => "Invalid domain format: "@ + s@,
            XnsError::NetworkError(s) => "Network error: "@ + s@,
            XnsError::ParseError(s) => "Parse error: "@ + s@,
            XnsError::RpcError(s) => "XRPL RPC error: "@ + s@,
            XnsError::MetadataError(s) => "NFT metadata error: "@ + s@,
            XnsError::UnsupportedService(s) => "Unsupported naming service: "@ + s@,
            XnsError::InternalError(s) => "Internal error: "@ + s@,
        }
    }

    /// A one-line description of the failure.
    pub fn message(&self) -> (r: String)
        ensures
            r@ == self.spec_message(),
    {
        match self {
            XnsError::DomainNotFound(s) => joined("Domain not found: ", s.as_str()),
            XnsError::InvalidDomain(s) => joined("Invalid domain format: ", s.as_str()),
            XnsError::NetworkError(s) => joined("Network error: ", s.as_str()),
            XnsError::ParseError(s) => joined("Parse error: ", s.as_str()),
            XnsError::RpcError(s) => joined("XRPL RPC error: ", s.as_str()),
            XnsError::MetadataError(s) => joined("NFT metadata error: ", s.as_str()),
            XnsError::UnsupportedService(s) => joined("Unsupported naming service: ", s.as_str()),
            XnsError::InternalError(s) => joined("Internal error: ", s.as_str()),
        }
    }
}

pub type XnsResult<T> = Result<T, XnsError>;

} // verus!
