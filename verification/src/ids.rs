//! Identifiers of collections, functions and jobs.

use uuid::Uuid;
use vstd::prelude::*;

verus! {

/// `uuid::Uuid`, carried through as it is.
#[verifier::external_type_specification]
#[verifier::external_body]
pub struct ExUuid(uuid::Uuid);

/// The id of a collection.
#[derive(Debug, PartialEq, Eq)]
pub struct CollectionUuid(pub Uuid);

impl Clone for CollectionUuid {
    fn clone(&self) -> (copy: Self)
        ensures
            copy == *self,
    {
        *self
    }
}

impl Copy for CollectionUuid {

}

/// The id of a function that is attached to collections.
#[derive(Debug, PartialEq, Eq)]
pub struct AttachedFunctionUuid(pub Uuid);

impl Clone for AttachedFunctionUuid {
    fn clone(&self) -> (copy: Self)
        ensures
            copy == *self,
    {
        *self
    }
}

impl Copy for AttachedFunctionUuid {

}

/// The id of a job.
#[derive(Debug, PartialEq, Eq)]
pub struct JobId(pub Uuid);

/// A job that runs an attached function goes under the function's id.
impl From<AttachedFunctionUuid> for JobId {
    fn from(id: AttachedFunctionUuid) -> (job: JobId) {
        JobId(id.0)
    }
}

impl vstd::std_specs::convert::FromSpecImpl<AttachedFunctionUuid> for JobId {
    open spec fn obeys_from_spec() -> bool {
        true
    }

    open spec fn from_spec(id: AttachedFunctionUuid) -> JobId {
        JobId(id.0)
    }
}

} // verus!
