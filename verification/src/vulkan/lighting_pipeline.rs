//! Pipelines of the resolve pass.

use vstd::prelude::*;

verus! {

/// The pipelines that light the scene for one lighting model, one for each kind of light. A kind
/// without a pipeline is left out.
#[derive(Clone, Copy, Debug, PartialEq, Eq)]
pub struct LightingPipeline {
    pub point_pipeline: Option<u64>,
    pub directional_pipeline: Option<u64>,
    pub ambient_pipeline: Option<u64>,
}

} // verus!
