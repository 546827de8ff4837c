//! The recording of a whole frame.

use vstd::prelude::*;

use crate::scene::Scene;
use crate::vulkan::command::{
    Clear, Command, DescriptorContents, ImageLayout, InputAttachment, Op, SetRef, SetRequest,
};
use crate::vulkan::frame_laws::{law_frame_draws_the_scene, quad_log, unlit, wanted_quads};
use crate::vulkan::gpass::gpass_ops;
use crate::vulkan::gpass_laws::{draw_log, live_objects, nothing_bound, wanted_draws};
use crate::vulkan::manager::VulkanManager;
use crate::vulkan::picture_laws::{
    before_lights, effect_quad, law_frame_begins_and_ends, law_frame_copies_to_its_image,
    law_frame_draws_each_quad, shared_set,
};
use crate::vulkan::post_process::pp_ops;
use crate::vulkan::recording::{fetches, lemma_some_fetch, scoped, unrecorded, Recording};
use crate::vulkan::render_order::render_order;
use crate::vulkan::resolve_pass::resolve_ops;

verus! {

impl VulkanManager {
    /// The descriptor set with the data of the current frame: the camera's uniform buffer and the
    /// images that the geometry pass leaves for the resolve pass.
    pub open spec fn frame_data_request(self) -> SetRequest {
        SetRequest {
            layout: self.desc_layout_frame_data,
            contents: DescriptorContents::FrameData {
                buffer: self.uniform_buffer.buffer,
                offset: 0,
                size: self.uniform_buffer.size,
                albedo_roughness: InputAttachment {
                    image: self.swapchain.g0_imageview,
                    layout: ImageLayout::ShaderReadOnlyOptimal,
                },
                normal_metallic: InputAttachment {
                    image: self.swapchain.g1_imageview,
                    layout: ImageLayout::ShaderReadOnlyOptimal,
                },
                depth: InputAttachment {
                    image: self.swapchain.depth_imageview_depth_only,
                    layout: ImageLayout::DepthStencilReadOnlyOptimal,
                },
            },
        }
    }

    /// Binding the data of the current frame as set zero of a pipeline layout, at the offset that
    /// the frame has in the uniform buffer, taken as a number of 32 bits.
    pub open spec fn frame_data_bind(self, layout: u64) -> Op {
        Op::BindDescriptorSet {
            layout,
            first_set: 0,
            set: SetRef::FrameData,
            dynamic_offset: Some(
                self.uniform_buffer.offsets@[self.current_frame_index as int] as u32,
            ),
        }
    }

    /// The start of a frame: recording begins, and with it the render pass of the geometry and
    /// resolve passes.
    pub open spec fn frame_head(self) -> Seq<Op> {
        seq![
            Op::BeginCommandBuffer,
            Op::FetchDescriptorSet(self.frame_data_request()),
            Op::Command(
                Command::BeginRenderPass {
                    render_pass: self.renderpass,
                    framebuffer: self.swapchain.framebuffers.deferred,
                    extent: self.swapchain.extent,
                    clear: Clear::ColorThenDepth {
                        red_tenths: 2,
                        green_tenths: 2,
                        blue_tenths: 2,
                        alpha_tenths: 0,
                        depth: 1,
                        stencil: 0,
                    },
                },
            ),
            self.frame_data_bind(self.pipeline_layout_gpass),
        ]
    }

    /// What the geometry pass of a frame records.
    pub open spec fn frame_gpass(self, scene: Scene) -> Seq<Op> {
        gpass_ops(
            scene.models@,
            render_order(scene.models@, scene.models@.len()),
            scene.models@.len(),
            self.swapchain.extent,
        )
    }

    /// The change from the geometry pass to the resolve pass.
    pub open spec fn frame_turn(self) -> Seq<Op> {
        seq![
            Op::Command(Command::NextSubpass),
            self.frame_data_bind(self.pipeline_layout_resolve_pass),
        ]
    }

    /// What the resolve pass of a frame records.
    pub open spec fn frame_resolve(self, scene: Scene) -> Seq<Op> {
        resolve_ops(
            self.lighting_pipelines@,
            self.lighting_pipelines@.len(),
            self.pipeline_layout_resolve_pass,
            self.swapchain.extent,
            scene.light_manager,
        )
    }

    /// What the post-processing of a frame records.
    pub open spec fn frame_pp(self, image_index: int) -> Seq<Op> {
        pp_ops(self.pp_effects@, self.effect_handles(), self.swapchain, image_index)
    }

    /// The steps of recording a frame: geometry, lights, effects and the copy to the swapchain.
    pub open spec fn frame_ops(self, image_index: int, scene: Scene) -> Seq<Op> {
        self.frame_head() + self.frame_gpass(scene) + self.frame_turn() + self.frame_resolve(scene)
            + seq![Op::Command(Command::EndRenderPass)] + self.frame_pp(image_index) + seq![
            Op::EndCommandBuffer,
        ]
    }

    /// The recording of the current frame's command buffer: the scene is drawn, lit and
    /// post-processed, and the picture copied to the given image of the swapchain.
    pub fn update_commandbuffer(&self, swapchain_image_index: usize, scene: &Scene) -> (recording:
        Recording)
        requires
            self.wf(),
            self.max_frames_in_flight > 0,
            swapchain_image_index < self.swapchain.images@.len(),
        ensures
            recording.commandbuffer == self.frame_commandbuffer(),
            recording@ == unrecorded(self.frame_ops(swapchain_image_index as int, *scene)),
            recording@.wf(),
            recording.commandbuffer == self.commandbuffers@[self.current_frame_index as int],
            recording@.ops[1] == Op::FetchDescriptorSet(shared_set(*self)),
            recording@.ops[3] == (Op::BindDescriptorSet {
                layout: self.pipeline_layout_gpass,
                first_set: 0,
                set: SetRef::FrameData,
                dynamic_offset: Some(
                    self.uniform_buffer.offsets@[self.current_frame_index as int] as u32,
                ),
            }),
            quad_log(unlit(), recording@.ops) == wanted_quads(
                before_lights(*self),
                self.lighting_pipelines@,
                self.lighting_pipelines@.len(),
                self.pipeline_layout_resolve_pass,
                self.swapchain.extent,
                scene.light_manager,
            ) + Seq::new(self.pp_effects@.len(), |k: int| effect_quad(*self, k)),
            live_objects(scene.models@) ==> draw_log(
                scene.models@,
                nothing_bound(),
                recording@.ops,
            ) == wanted_draws(
                scene.models@,
                render_order(scene.models@, scene.models@.len()),
                scene.models@.len(),
                self.swapchain.extent,
            ),
            recording@.ops[recording@.ops.len() - 3] matches Op::Command(
                Command::BlitImage {
                    src: _,
                    src_layout: _,
                    src_region: _,
                    dst,
                    dst_layout: _,
                    dst_region: _,
                    filter: _,
                },
            ) && dst == self.swapchain.images@[swapchain_image_index as int],
    {
        let frame = self.current_frame_index as usize;
        let commandbuffer = self.commandbuffers[frame];
        let frame_offset: u32 = #[verifier::truncate]
        (self.uniform_buffer.offsets[frame] as u32);
        let mut ops: Vec<Op> = Vec::new();
        ops.push(Op::BeginCommandBuffer);
        ops.push(
            Op::FetchDescriptorSet(
                SetRequest {
                    layout: self.desc_layout_frame_data,
                    contents: DescriptorContents::FrameData {
                        buffer: self.uniform_buffer.buffer,
                        offset: 0,
                        size: self.uniform_buffer.size,
                        albedo_roughness: InputAttachment {
                            image: self.swapchain.g0_imageview,
                            layout: ImageLayout::ShaderReadOnlyOptimal,
                        },
                        normal_metallic: InputAttachment {
                            image: self.swapchain.g1_imageview,
                            layout: ImageLayout::ShaderReadOnlyOptimal,
                        },
                        depth: InputAttachment {
                            image: self.swapchain.depth_imageview_depth_only,
                            layout: ImageLayout::DepthStencilReadOnlyOptimal,
                        },
                    },
                },
            ),
        );
        ops.push(
            Op::Command(
                Command::BeginRenderPass {
                    render_pass: self.renderpass,
                    framebuffer: self.swapchain.framebuffers.deferred,
                    extent: self.swapchain.extent,
                    clear: Clear::ColorThenDepth {
                        red_tenths: 2,
                        green_tenths: 2,
                        blue_tenths: 2,
                        alpha_tenths: 0,
                        depth: 1,
                        stencil: 0,
                    },
                },
            ),
        );
        ops.push(
            Op::BindDescriptorSet {
                layout: self.pipeline_layout_gpass,
                first_set: 0,
                set: SetRef::FrameData,
                dynamic_offset: Some(frame_offset),
            },
        );
        assert(ops@ == self.frame_head());

        let render_map = Self::build_render_order(&scene.models);
        proof {
            assert forall|k: int| 0 <= k < render_map@.len() implies #[trigger] render_map@[k]
                < scene.models@.len() by {
                assert(render_map@.contains(render_map@[k]));
            }
        }
        let mut gpass = self.render_gpass(&scene.models, &render_map);
        ops.append(&mut gpass);

        ops.push(Op::Command(Command::NextSubpass));
        ops.push(
            Op::BindDescriptorSet {
                layout: self.pipeline_layout_resolve_pass,
                first_set: 0,
                set: SetRef::FrameData,
                dynamic_offset: Some(frame_offset),
            },
        );
        let mut resolve = self.render_resolve_pass(&scene.light_manager);
        ops.append(&mut resolve);
        ops.push(Op::Command(Command::EndRenderPass));

        let mut pp = self.render_pp(swapchain_image_index);
        ops.append(&mut pp);
        ops.push(Op::EndCommandBuffer);
        assert(ops@ == self.frame_ops(swapchain_image_index as int, *scene));
        proof {
            self.law_frame_binds_only_what_it_fetched(swapchain_image_index as int, *scene);
            assert(scene.models@.len() == scene.models.len());
            let index = swapchain_image_index as int;
            law_frame_begins_and_ends(*self, index, *scene, 1);
            law_frame_draws_each_quad(*self, index, *scene);
            if live_objects(scene.models@) {
                law_frame_draws_the_scene(*self, index, *scene);
            }
            law_frame_copies_to_its_image(*self, index, *scene, ops@.len() - 3);
        }
        Recording::new(commandbuffer, ops)
    }

    /// A frame binds no descriptor set before it has fetched one.
    pub proof fn law_frame_binds_only_what_it_fetched(self, image_index: int, scene: Scene)
        ensures
            scoped(self.frame_ops(image_index, scene)),
    {
        let ops = self.frame_ops(image_index, scene);
        assert forall|i: int| 0 <= i < ops.len() && #[trigger] ops[i] is BindDescriptorSet implies
            fetches(ops.take(i)) > 0 by {
            assert(ops[0] == Op::BeginCommandBuffer);
            assert(ops[1] == Op::FetchDescriptorSet(self.frame_data_request()));
            lemma_some_fetch(ops.take(i), 1);
        }
    }
}

} // verus!
