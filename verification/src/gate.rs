//! The admission gate: a bounded pool of permits that limits how many
//! requests are in flight.
//!
//! The pool is a `tokio::sync::Semaphore`. A permit is taken without
//! waiting; it is an `OwnedSemaphorePermit`, which gives its slot back when
//! it is dropped.

use crate::error::InferError;
use std::sync::Arc;
use tokio::sync::{OwnedSemaphorePermit, Semaphore, TryAcquireError};
use vstd::prelude::*;

verus! {

/// `tokio::sync::Semaphore`: a counting semaphore.
#[verifier::external_type_specification]
#[verifier::external_body]
pub struct ExSemaphore(tokio::sync::Semaphore);

/// `tokio::sync::OwnedSemaphorePermit`: a permit that returns to its
/// semaphore when dropped.
#[verifier::external_type_specification]
#[verifier::external_body]
pub struct ExOwnedSemaphorePermit(tokio::sync::OwnedSemaphorePermit);

/// The greatest number of permits that a semaphore can be made with.
pub open spec fn max_permits() -> usize {
    usize::MAX / 8
}

/// `Semaphore::new` makes a semaphore with the given number of permits, and
/// panics above `Semaphore::MAX_PERMITS`, which is `usize::MAX >> 3`.
pub assume_specification[ tokio::sync::Semaphore::new ](permits: usize) -> (semaphore: Semaphore)
    requires
        permits <= max_permits(),
    ensures
        permits_made_with(semaphore) == permits,
;

/// Calls `Semaphore::try_acquire_owned` on a clone of the handle. The outcome
/// depends on who else holds permits, so nothing is claimed of it.
#[verifier::external_body]
fn try_acquire_owned(semaphore: &Arc<Semaphore>) -> (outcome: Result<
    OwnedSemaphorePermit,
    TryAcquireError,
>) {
    semaphore.clone().try_acquire_owned()
}

/// The bounded pool of permits.
#[derive(Debug)]
pub struct AdmissionGate {
    semaphore: Arc<Semaphore>,
}

/// What admission answers for an outcome of the semaphore: the permit, or
/// that the service is overloaded.
pub fn admission(outcome: Result<OwnedSemaphorePermit, TryAcquireError>) -> (admitted: Result<
    OwnedSemaphorePermit,
    InferError,
>)
    ensures
        match outcome {
            Ok(permit) => admitted == Ok::<OwnedSemaphorePermit, InferError>(permit),
            Err(reason) => admitted matches Err(InferError::Overloaded(r)) && r == reason,
        },
{
    match outcome {
        Ok(permit) => Ok(permit),
        Err(reason) => Err(InferError::Overloaded(reason)),
    }
}

impl AdmissionGate {
    /// A gate that lets `max_concurrent_requests` requests be in flight.
    pub fn new(max_concurrent_requests: usize) -> (gate: AdmissionGate)
        requires
            max_concurrent_requests <= max_permits(),
        ensures
            gate.capacity() == max_concurrent_requests,
    {
        AdmissionGate { semaphore: Arc::new(Semaphore::new(max_concurrent_requests)) }
    }

    /// Takes a permit without waiting; a refusal is reported as overload.
    pub fn try_acquire(&self) -> (admitted: Result<OwnedSemaphorePermit, InferError>)
        ensures
            admitted matches Err(error) ==> error is Overloaded,
    {
        admission(try_acquire_owned(&self.semaphore))
    }

    /// How many requests may be in flight at once: the number of permits
    /// that the semaphore was made with.
    pub closed spec fn capacity(&self) -> usize {
        permits_made_with(*self.semaphore)
    }
}

/// The number of permits that `Semaphore::new` made a semaphore with. It
/// is fixed when the semaphore is made; how many of them are free at a
/// later moment is not a matter of this name.
pub uninterp spec fn permits_made_with(semaphore: Semaphore) -> usize;

} // verus!
