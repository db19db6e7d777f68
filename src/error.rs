use vstd::prelude::*;

verus! {

/// Why the simulation could not be set up. Every error is a construction-time
/// failure; once built, nothing in a step can fail.
#[derive(Debug, Clone, Copy, PartialEq, Eq, Structural)]
pub enum SetupError {
    /// A grid dimension, the channel count or the layer count is zero.
    ZeroDimension,
    /// The cell buffers would not fit in the address space.
    TooLarge,
    /// The parts handed to the engine disagree on the grid's shape.
    LayoutMismatch,
}

} // verus!
