//! The value that is either at hand or produced on demand.

use crate::lazy::LazyValue;
use crate::resolve::Resolution;
use crate::resolve::Resolve;
use std::borrow::Cow;
use vstd::prelude::*;

verus! {

/// Represents a resolvable value that can be either raw or lazy.
///
/// When the value is raw, it is immediately available.
/// When the value is lazy, it is produced by the held [`LazyValue`], possibly
/// through a suspending operation.
#[derive(Debug)]
#[verifier::reject_recursive_types(T)]
pub enum Value<T> {
    Raw(T),
    Lazy(LazyValue<T>),
}

impl<T: Clone> Clone for Value<T> {
    /// A raw value is cloned as `T` clones; a lazy one is another handle on
    /// the same producer.
    fn clone(&self) -> (other: Self)
        ensures
            match (*self, other) {
                (Value::Raw(data), Value::Raw(copy)) => cloned::<T>(data, copy),
                (Value::Lazy(lazy), Value::Lazy(handle)) => handle == lazy,
                _ => false,
            },
    {
        match self {
            Value::Raw(data) => Value::Raw(data.clone()),
            Value::Lazy(lazy) => Value::Lazy(lazy.clone()),
        }
    }
}

impl<T: Clone> Resolve<T> for Value<T> {
    /// A raw value comes to a reference to the held data and to nothing else;
    /// a lazy value comes to what the held [`LazyValue`] comes to.
    open spec fn resolves_to(&self, resolution: Resolution<'_, T>) -> bool {
        match self {
            Value::Raw(data) => resolution == Resolution::Ready(Ok(Cow::Borrowed(data))),
            Value::Lazy(lazy) => lazy.resolves_to(resolution),
        }
    }

    fn resolve(&self) -> (resolution: Resolution<'_, T>) {
        match self {
            Value::Raw(data) => Resolution::Ready(Ok(Cow::Borrowed(data))),
            Value::Lazy(lazy) => lazy.resolve(),
        }
    }
}

} // verus!
