//! Retained state for a recursive, collapsible inspector view that is redrawn every frame.
//!
//! Lengths are whole milli-points and the animated openness of a body is a fixed-point value
//! in `0..=OPENNESS_FULL`; the drawing layer converts to and from its own units.
use vstd::prelude::*;

pub mod codegen;
pub mod header;
pub mod laws;
pub mod layout;
pub mod probe;
pub mod store;
pub mod table;
pub mod walk;

verus! {

/// Openness of a fully open body; `0` is fully closed.
pub const OPENNESS_FULL: u64 = 1000;

/// Smallest change of a measured body height, in milli-points, that is worth persisting.
pub const HEIGHT_EPSILON: u64 = 1;

} // verus!
