//! Resolution of `.xrp` domain names to the ledger tokens that represent them,
//! and the inverse lookup from an account to the domains it holds.
//!
//! The library holds the decisions: which naming services to ask and in what
//! order, how a token listing is paged, how a metadata URI is decoded and
//! which gateways are tried, how a domain name is read from a metadata
//! document, how ownership and profile data shape the final record. Each
//! network exchange is described as a value that the caller performs and
//! reports back.

pub mod cache;
pub mod client;
pub mod error;
pub mod memo_storage;
pub mod models;
pub mod text;
pub mod parser;
pub mod resolver;

pub use cache::DomainCache;
pub use error::{XnsError, XnsResult};
pub use models::{DomainInfo, NamingService, NftMetadata, XrplNetwork};
pub use parser::MetadataParser;
pub use resolver::{Action, ResolveSession};
