//! A typed client core for a paginated, OAuth1-signed REST API: request
//! signing, response classification, rate-limit tracking and the paging
//! protocol, each stated over plain values and verified.

pub mod encoding;
pub mod error;
pub mod pagination;
pub mod params;
pub mod parsers;
pub mod properties;
pub mod rate_limit;
pub mod resources;
pub mod signer;
pub mod text;
pub mod transport;
pub mod urls;
