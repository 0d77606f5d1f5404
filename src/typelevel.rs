//! Sealing of the typestate markers.
use vstd::prelude::*;

verus! {

/// Implemented only by this crate's state markers, so that no other crate
/// can add a state of its own.
pub trait Sealed {}

} // verus!
