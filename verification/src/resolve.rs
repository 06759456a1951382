use crate::result::Result;
use futures::task::FutureObj;
use std::borrow::Cow;
use vstd::prelude::*;

verus! {

/// `futures::task::FutureObj`: an owned, type-erased, sendable suspending
/// operation. Nothing of its inside is visible here; it is only carried from
/// the producer that made it to the caller that awaits it.
#[verifier::external_type_specification]
#[verifier::external_body]
#[verifier::reject_recursive_types(T)]
pub struct ExFutureObj<'a, T>(FutureObj<'a, T>);

/// What one call of [`Resolve::resolve`] comes to.
#[derive(Debug)]
#[verifier::reject_recursive_types(T)]
pub enum Resolution<'a, T: Clone> {
    /// Resolution ended without suspending: the data, borrowed from the holder
    /// or freshly produced, or the producer's failure.
    Ready(Result<Cow<'a, T>>),
    /// The producer handed out a suspending operation. Awaiting it is the one
    /// suspension of this resolution; [`settle`] finishes with what it yields.
    Pending(FutureObj<'static, Result<T>>),
}

/// The result of a resolution whose producer came to `outcome`: a produced
/// value is owned by the caller, a failure is passed on as it is.
pub open spec fn settled<'a, T: Clone>(outcome: Result<T>) -> Result<Cow<'a, T>> {
    match outcome {
        Ok(value) => Ok(Cow::Owned(value)),
        Err(error) => Err(error),
    }
}

/// Finishes a resolution with the outcome of its producer.
pub fn settle<'a, T: Clone>(outcome: Result<T>) -> (result: Result<Cow<'a, T>>)
    ensures
        result == settled::<T>(outcome),
{
    match outcome {
        Ok(value) => Ok(Cow::Owned(value)),
        Err(error) => Err(error),
    }
}

/// A holder that can yield the data it stands for.
pub trait Resolve<T: Clone> {
    /// Whether one resolution of this holder may come to `resolution`. It
    /// depends on the holder alone, which no resolution changes: each call
    /// starts afresh, whatever earlier ones came to.
    spec fn resolves_to(&self, resolution: Resolution<'_, T>) -> bool;

    /// Yields the data: a reference into the holder where the data is at hand,
    /// a new instance where it has to be produced.
    fn resolve(&self) -> (resolution: Resolution<'_, T>)
        ensures
            self.resolves_to(resolution),
    ;
}

} // verus!
