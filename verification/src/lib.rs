//! Verified core of a French tax simulation engine: tool dispatch, argument
//! checks, family tax shares, rule identifiers, data freshness and the
//! registry of sourced fiscal rules.

pub mod text;
pub mod error;
pub mod tools;
pub mod arguments;
pub mod freshness;
pub mod rule_ids;
pub mod registry;
pub mod registry_laws;
pub mod contract;
pub mod response;
