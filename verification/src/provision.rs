//! Bucket provisioning: the request that creates the destination bucket, and
//! what the service's answer means for the sink.

use crate::error::SinkError;
use vstd::prelude::*;

verus! {

/// What is sent to the storage service to create the bucket.
#[derive(Clone, Debug, PartialEq, Eq)]
pub struct BucketRequest {
    pub bucket: String,
    /// The region that the bucket is to be created in.
    pub location_constraint: String,
}

/// Why the storage service did not create the bucket.
#[derive(Clone, Debug, PartialEq, Eq)]
pub enum BucketError {
    /// The bucket exists and belongs to the caller.
    AlreadyOwnedByYou,
    /// Any other failure, with what the service said.
    Other(String),
}

/// Whether the bucket is there for the caller after the service answered
/// `created`: it was created now, or the caller owned it before.
pub open spec fn provisioned(created: Result<(), BucketError>) -> bool {
    created is Ok || created == Err::<(), BucketError>(BucketError::AlreadyOwnedByYou)
}

/// The provisioning error for an answer after which the bucket is not there.
pub open spec fn provision_error(created: Result<(), BucketError>) -> SinkError
    recommends
        !provisioned(created),
{
    SinkError::Provision(created->Err_0->Other_0)
}

/// Reads the service's answer to the request to create the bucket. A bucket
/// that the caller owns already counts as created; any other failure is a
/// provisioning error that carries what the service said.
pub fn create_bucket_if_extant(created: Result<(), BucketError>) -> (result: Result<
    (),
    SinkError,
>)
    ensures
        provisioned(created) ==> result is Ok,
        !provisioned(created) ==> result == Err::<(), SinkError>(provision_error(created)),
{
    match created {
        Ok(()) => Ok(()),
        Err(BucketError::AlreadyOwnedByYou) => Ok(()),
        Err(BucketError::Other(message)) => Err(SinkError::Provision(message)),
    }
}

} // verus!
