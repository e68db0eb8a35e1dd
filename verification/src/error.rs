//! What can go wrong.

use vstd::prelude::*;

verus! {

/// The one failure of this library.
#[derive(Clone, Copy, Debug, PartialEq, Eq, Structural)]
pub enum RayTraceError {
    /// A ray was given the zero vector as its direction.
    InvalidRay,
}

} // verus!
