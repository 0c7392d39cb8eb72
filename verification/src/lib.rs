//! A verified core for a tenant-scoped data-access layer.
//!
//! The crate centers on two mechanisms: an execution-context gate that
//! makes identity-scoped operations reachable only through a bound state,
//! and a recursive predicate compiler that turns a nested boolean filter
//! into a parameterized condition with a deterministic parameter order.

pub mod engine;
pub mod errors;
pub mod ids;
pub mod members;
pub mod organization;
pub mod query;
pub mod text;
