//! Core of a static security scanner for mobile application packages.
//!
//! The library resolves layered configuration into a permission rule table,
//! aggregates findings into ordered, deduplicating severity tiers, and decides
//! when analysis results and reports may be reused instead of regenerated.

pub mod config;
pub mod criticality;
pub mod document;
pub mod fingerprint;
pub mod paths;
pub mod permission;
pub mod report;
pub mod results;
pub mod rules;
pub mod strutil;
pub mod vulnerability;
