//! A metadata registry for an internal developer platform: organizations,
//! database schemas and their branches, services and packages with their
//! environments, and the pipeline status of each.
//!
//! The registry keeps its rows in tables (`store`, `registry`). Every
//! operation that a request can ask for is a function in `routes`, with a
//! contract that says which rows it reads, how it changes the tables, and
//! when it refuses. What holds of several operations together is proved in
//! `laws`.
//!
//! A schema, a service or a package is seen from one of its branches or
//! environments: the row of the branch or environment overrides what the
//! entity itself says (`routes::dbschema`). Pipeline statuses are recorded
//! on those rows (`routes::pipeline`). Organizations are known by the slug
//! of their name (`slug`).
//!
//! Reading and writing JSON, the clock, random identifiers and Unicode
//! lowercasing are left to the crates that do them; the few functions that
//! call them say what is taken on trust.

pub mod claims;
pub mod clock;
pub mod config;
pub mod error;
pub mod ident;
pub mod json;
pub mod laws;
pub mod models;
pub mod query;
pub mod registry;
pub mod routes;
pub mod slug;
pub mod status;
pub mod store;
pub mod text;
