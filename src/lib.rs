//! Request coordination for a typed client of a versioned, localized JSON
//! service: an expiring cache, a single-flight registry of running fetches,
//! bulk chunking, request building and response classification, together
//! with the resource records the service returns.

pub mod bulk;
pub mod cache;
pub mod characters;
pub mod chunking;
pub mod coordinator;
pub mod endpoint;
pub mod error;
pub mod fetch;
pub mod fingerprint;
pub mod items;
pub mod professions;
pub mod request;
pub mod response;
pub mod skills;
pub mod specializations;
pub mod traits;
