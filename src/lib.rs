//! Batch validation of documents against policy rules: a read-only rule
//! store, resolution of each manifest's rule source, a pass-through to the
//! policy engine, and an ordered, fail-fast aggregation of the results.
use vstd::prelude::*;

pub mod guard;
pub mod handlers;
pub mod laws;
pub mod resolve;
pub mod store;

pub use guard::call_cfn_guard;
pub use handlers::{validate, validate_manifest, Output, Request, Response, ResultError};
pub use resolve::{resolve, EffectiveRule, Manifest};
pub use store::RuleStore;

verus! {

} // verus!
