//! Reconciliation core for an operator that manages Garage, a distributed
//! S3-compatible object store, on a cluster orchestrator.
//!
//! The crate holds the verified logic: the declarative resource model, the
//! desired-state projection, the admin-API request planning and response
//! interpretation, and the three reconciliation state machines (instance,
//! bucket, access key). Network and cluster I/O live outside, in a thin
//! driver that feeds observations in and carries planned actions out.

pub mod admin;
pub mod errors;
pub mod laws;
pub mod machine;
pub mod project;
pub mod resources;
pub mod text;

use vstd::prelude::*;

verus! {

/// The version of the managed storage service this operator targets; used
/// as the version label on every projected sub-object.
pub const GARAGE_VERSION: &'static str = "0.8.2";

} // verus!
