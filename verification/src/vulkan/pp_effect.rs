//! Post-processing effects.

use vstd::prelude::*;

verus! {

/// An effect that turns the picture of a frame into another one.
#[derive(Clone, Copy, Debug, PartialEq, Eq)]
pub struct PPEffect {
    pub pipeline: u64,
}

} // verus!
