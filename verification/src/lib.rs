//! Values that are either at hand or produced on demand, behind one way of
//! resolving them.
//!
//! A [`Value`] holds its data directly or holds a [`LazyValue`], which runs a
//! stored producer each time it is resolved. Resolution never suspends by
//! itself: where the producer hands out a suspending operation, [`Resolve::resolve`]
//! returns it as [`Resolution::Pending`], the caller awaits it on whatever
//! runtime it has, and [`settle`] turns what it yielded into the final result.

mod error;
pub use error::Error;

pub mod laws;

pub mod lazy;
pub use lazy::LazyValue;

pub mod render;

mod resolve;
pub use resolve::settle;
pub use resolve::settled;
pub use resolve::Resolution;
pub use resolve::Resolve;

mod result;
pub use result::Result;

mod value;
pub use value::Value;
