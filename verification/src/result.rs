use crate::error::Error;
use vstd::prelude::*;

verus! {

/// `std::result::Result` with [`Error`] as the error type.
pub type Result<T> = std::result::Result<T, Error>;

} // verus!
