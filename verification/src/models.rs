//! The records of the registry: stored rows, requests and responses.

pub mod request;
pub mod response;
pub mod schema;
