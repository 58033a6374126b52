//! Two concrete processors exercising the framework: one that logs the
//! content of each incoming flow file, and one that emits flow files of
//! configured content. Both declare a single `success` relationship and route
//! everything they handle to it.

pub mod simple_log_processor;
pub mod simple_source_processor;

use vstd::prelude::*;
use crate::definition::{Relationship, RelationshipModel};

verus! {

/// The one relationship both example processors declare.
pub open spec fn spec_success_relationship() -> RelationshipModel {
    RelationshipModel {
        name: "success"@,
        description: "FlowFiles are transferred here after logging"@,
    }
}

/// Builds the `success` relationship.
pub fn success_relationship() -> (r: Relationship)
    ensures
        r@ == spec_success_relationship(),
{
    Relationship::new("success", "FlowFiles are transferred here after logging")
}

} // verus!
