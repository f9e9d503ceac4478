//! The sealing trait that keeps the library's marker traits closed.

use vstd::prelude::*;

verus! {

/// Implemented only inside this crate.
pub trait Sealed {}

} // verus!
