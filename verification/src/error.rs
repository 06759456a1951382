use std::convert::Infallible;
use vstd::prelude::*;

verus! {

/// Errors that can occur during value resolution.
///
/// No kind of error is defined yet. The only variant carries a value of a type
/// that has none, so no `Error` can be built: every failure that reaches a
/// caller comes from a producer, unchanged.
#[derive(Debug)]
pub enum Error {
    Never(Infallible),
}

} // verus!
