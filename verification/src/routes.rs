//! The operations of the registry, one per request that it answers.

pub mod catalog;
pub mod dbschema;
pub mod package;
pub mod pipeline;
pub mod service;
pub mod workspace;
