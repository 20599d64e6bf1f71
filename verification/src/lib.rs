//! Derived table of competitive-programming ratings for organization members.
//!
//! The crate reconciles three independent data sources — the organization
//! roster, the account-linkage service and the contest-rating history — into
//! one denormalized record per linked member, and models the idempotent bulk
//! upsert that persists the result. Transport (HTTP, decompression, JSON,
//! SQL) lives outside the library; the library holds the merge, defaulting
//! and ordering rules, each stated in a contract and proved.

pub mod entity;
pub mod rating;
pub mod pattern;
pub mod dto;
pub mod merge;
pub mod store;
pub mod roster;
pub mod linkage;
pub mod pipeline;
