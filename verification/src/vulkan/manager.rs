//! The renderer's own state.

use std::rc::Rc;
use vstd::prelude::*;

use crate::vulkan::command::Extent;
use crate::vulkan::lighting_pipeline::LightingPipeline;
use crate::vulkan::pp_effect::PPEffect;

verus! {

/// The framebuffers that belong to a swapchain.
#[derive(Clone, Copy, Debug, PartialEq, Eq)]
pub struct Framebuffers {
    /// The one of the geometry and resolve passes.
    pub deferred: u64,
    /// The one whose color attachment is the first geometry image.
    pub pp_a: u64,
    /// The one whose color attachment is the resolve image.
    pub pp_b: u64,
}

/// The swapchain and the images that are rendered to on the way to it.
#[derive(Debug, PartialEq, Eq)]
pub struct Swapchain {
    pub swapchain: u64,
    pub extent: Extent,
    pub images: Vec<u64>,
    pub g0_image: u64,
    pub resolve_image: u64,
    pub g0_imageview: u64,
    pub g1_imageview: u64,
    pub resolve_imageview: u64,
    pub depth_imageview_depth_only: u64,
    pub framebuffers: Framebuffers,
}

/// The uniform buffer that holds the camera data of each frame in flight.
#[derive(Debug, PartialEq, Eq)]
pub struct PerFrameUniformBuffer {
    pub buffer: u64,
    /// The size of the data of one frame.
    pub size: u64,
    /// Where the data of each frame starts.
    pub offsets: Vec<u64>,
}

/// The state of the renderer: the handles of what it has created, which of the frames in flight is
/// the current one, and what has been registered with it.
pub struct VulkanManager {
    pub graphics_queue: u64,
    pub swapchain: Swapchain,
    pub renderpass: u64,
    pub commandbuffers: Vec<u64>,
    pub uniform_buffer: PerFrameUniformBuffer,
    pub desc_layout_frame_data: u64,
    pub pipeline_layout_gpass: u64,
    pub pipeline_layout_resolve_pass: u64,
    pub max_frames_in_flight: u8,
    pub current_frame_index: u8,
    pub image_acquire_semaphores: Vec<u64>,
    pub render_finished_semaphores: Vec<u64>,
    pub frame_resource_fences: Vec<u64>,
    pub lighting_pipelines: Vec<Rc<LightingPipeline>>,
    pub sampler_linear: u64,
    pub desc_layout_pp: u64,
    pub pipe_layout_pp: u64,
    pub renderpass_pp: u64,
    pub pp_effects: Vec<Rc<PPEffect>>,
}

impl VulkanManager {
    /// Every frame in flight has its own command buffer, uniform data, semaphores and fence, and
    /// the current frame is one of them. With no frame in flight at all, the index is zero.
    pub open spec fn wf(self) -> bool {
        &&& self.commandbuffers@.len() == self.max_frames_in_flight
        &&& self.uniform_buffer.offsets@.len() == self.max_frames_in_flight
        &&& self.image_acquire_semaphores@.len() == self.max_frames_in_flight
        &&& self.render_finished_semaphores@.len() == self.max_frames_in_flight
        &&& self.frame_resource_fences@.len() == self.max_frames_in_flight
        &&& self.max_frames_in_flight > 0 ==> self.current_frame_index < self.max_frames_in_flight
        &&& self.max_frames_in_flight == 0 ==> self.current_frame_index == 0
    }

    /// Appends a lighting pipeline to those of the resolve pass.
    pub fn register_lighting_pipeline(&mut self, pipeline: Rc<LightingPipeline>)
        ensures
            final(self).lighting_pipelines@ == old(self).lighting_pipelines@.push(pipeline),
            *final(self) == (VulkanManager {
                lighting_pipelines: final(self).lighting_pipelines,
                ..*old(self)
            }),
            old(self).wf() ==> final(self).wf(),
    {
        self.lighting_pipelines.push(pipeline);
    }

    /// Appends a post-processing effect to those that are applied to every frame.
    pub fn register_pp_effect(&mut self, pp_effect: Rc<PPEffect>)
        ensures
            final(self).pp_effects@ == old(self).pp_effects@.push(pp_effect),
            *final(self) == (VulkanManager { pp_effects: final(self).pp_effects, ..*old(self) }),
            old(self).wf() ==> final(self).wf(),
    {
        self.pp_effects.push(pp_effect);
    }

    /// The index of the current frame among those in flight.
    pub fn get_current_frame_index(&self) -> (index: u8)
        ensures
            index == self.current_frame_index,
    {
        self.current_frame_index
    }
}

} // verus!
