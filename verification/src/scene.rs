//! What a frame shows, as far as recording it needs to know.

use vstd::prelude::*;

verus! {

/// One object of the scene: a material, a mesh and a transform.
///
/// Handles are the raw numbers of the graphics interface. The transform and the contents of the
/// material's descriptor set stay with the caller; commands refer to them by the position of the
/// model in its scene.
#[derive(Debug, PartialEq, Eq)]
pub struct Model {
    /// The graphics pipeline of the material.
    pub pipeline: u64,
    /// The pipeline layout of the material.
    pub pipeline_layout: u64,
    /// The layout of the material's descriptor set.
    pub descriptor_set_layout: u64,
    /// The address of the material, which tells materials apart.
    pub material: u64,
    /// A number for the method table behind the pointer to the material, which orders the tables of
    /// materials at one address. Pointers to trait objects are ordered by address first and by
    /// their tables second.
    pub material_table: u64,
    /// The address of the mesh, which tells meshes apart.
    pub mesh: u64,
    /// The buffer that holds the vertices of the mesh.
    pub vertex_buffer: u64,
    /// The buffer that holds the indices of the mesh.
    pub index_buffer: u64,
    /// The parts of the mesh: where in the index buffer each starts, and how many indices it has.
    pub submeshes: Vec<(u32, u32)>,
}

/// The lights of a scene. Their parameters stay with the caller; commands refer to a light by its
/// kind and position.
#[derive(Clone, Copy, Debug, PartialEq, Eq)]
pub struct LightManager {
    /// How many point lights there are.
    pub point_lights: usize,
    /// How many directional lights there are.
    pub directional_lights: usize,
}

/// The models and lights of one frame.
#[derive(Debug, PartialEq, Eq)]
pub struct Scene {
    /// What is drawn in the geometry pass.
    pub models: Vec<Model>,
    /// What lights it.
    pub light_manager: LightManager,
}

} // verus!
