//! Post-processing: the effects take turns between two images, and the last picture is copied to
//! the swapchain.

use std::rc::Rc;
use vstd::prelude::*;

use crate::vulkan::command::{
    flipped_viewport, Access, Barriers, Clear, Command, DescriptorContents, Extent, Filter,
    ImageBarrier, ImageLayout, Offset, Op, PipelineStage, Region, SetRef, SetRequest, Viewport,
};
use crate::vulkan::manager::{Swapchain, VulkanManager};
use crate::vulkan::outside::null_sampler;
use crate::vulkan::pp_effect::PPEffect;
use crate::vulkan::resolve_pass::quad_op;

verus! {

/// Whether, after `n` effects, the picture is in the first geometry image and no longer in the
/// resolve image.
pub open spec fn swapped(n: nat) -> bool {
    n % 2 == 1
}

/// The view that effect `k` samples: that of the image that holds the picture so far.
pub open spec fn source_view(swapchain: Swapchain, k: nat) -> u64 {
    if swapped(k) {
        swapchain.g0_imageview
    } else {
        swapchain.resolve_imageview
    }
}

/// The framebuffer that effect `k` draws to: the one on the other image.
pub open spec fn target_framebuffer(swapchain: Swapchain, k: nat) -> u64 {
    if swapped(k) {
        swapchain.framebuffers.pp_b
    } else {
        swapchain.framebuffers.pp_a
    }
}

/// The image that holds the picture after `n` effects.
pub open spec fn result_image(swapchain: Swapchain, n: nat) -> u64 {
    if swapped(n) {
        swapchain.g0_image
    } else {
        swapchain.resolve_image
    }
}

/// The handles that the effects share.
pub struct EffectHandles {
    pub render_pass: u64,
    pub set_layout: u64,
    pub pipeline_layout: u64,
}

/// The steps of effect `k`: one render pass that draws the quad, sampling the picture so far.
pub open spec fn effect_ops(
    effect: PPEffect,
    k: nat,
    handles: EffectHandles,
    swapchain: Swapchain,
) -> Seq<Op> {
    seq![
        Op::Command(
            Command::BeginRenderPass {
                render_pass: handles.render_pass,
                framebuffer: target_framebuffer(swapchain, k),
                extent: swapchain.extent,
                clear: Clear::Nothing,
            },
        ),
        Op::Command(Command::BindPipeline { pipeline: effect.pipeline }),
        Op::Command(Command::SetViewport(flipped_viewport(swapchain.extent))),
        Op::FetchDescriptorSet(
            SetRequest {
                layout: handles.set_layout,
                contents: DescriptorContents::ImageSampler {
                    image: source_view(swapchain, k),
                    layout: ImageLayout::ShaderReadOnlyOptimal,
                    sampler: 0,
                },
            },
        ),
        Op::BindDescriptorSet {
            layout: handles.pipeline_layout,
            first_set: 0,
            set: SetRef::Latest,
            dynamic_offset: None,
        },
        quad_op(),
        Op::Command(Command::EndRenderPass),
    ]
}

/// The steps of the first `n` effects.
pub open spec fn effects_ops(
    effects: Seq<Rc<PPEffect>>,
    n: nat,
    handles: EffectHandles,
    swapchain: Swapchain,
) -> Seq<Op>
    decreases n,
{
    if n == 0 {
        Seq::empty()
    } else {
        effects_ops(effects, (n - 1) as nat, handles, swapchain) + effect_ops(
            *effects[n - 1],
            (n - 1) as nat,
            handles,
            swapchain,
        )
    }
}

/// The transition of the swapchain image, whatever it held, to the target of a copy.
pub open spec fn open_target(image: u64) -> ImageBarrier {
    ImageBarrier {
        image,
        src_access: Access::Nothing,
        dst_access: Access::TransferWrite,
        old_layout: ImageLayout::Undefined,
        new_layout: ImageLayout::TransferDstOptimal,
    }
}

/// The transition of the finished picture from what an effect left it in to the source of a copy.
pub open spec fn open_source(image: u64) -> ImageBarrier {
    ImageBarrier {
        image,
        src_access: Access::ColorAttachmentWrite,
        dst_access: Access::TransferRead,
        old_layout: ImageLayout::ShaderReadOnlyOptimal,
        new_layout: ImageLayout::TransferSrcOptimal,
    }
}

/// The transition of the swapchain image, after the copy, to what is shown.
pub open spec fn close_target(image: u64) -> ImageBarrier {
    ImageBarrier {
        image,
        src_access: Access::TransferWrite,
        dst_access: Access::TransferRead,
        old_layout: ImageLayout::TransferDstOptimal,
        new_layout: ImageLayout::PresentSrc,
    }
}

/// The whole of an image of the given size. A side is taken as a signed number of 32 bits.
pub open spec fn whole(extent: Extent) -> Region {
    Region {
        start: Offset { x: 0, y: 0, z: 0 },
        end: Offset { x: extent.width as i32, y: extent.height as i32, z: 1 },
    }
}

/// The steps that copy a finished picture to an image of the swapchain.
pub open spec fn copy_ops(picture: u64, image: u64, extent: Extent) -> Seq<Op> {
    seq![
        Op::Command(
            Command::PipelineBarrier {
                src_stage: PipelineStage::ColorAttachmentOutput,
                dst_stage: PipelineStage::Transfer,
                barriers: Barriers::Two(open_target(image), open_source(picture)),
            },
        ),
        Op::Command(
            Command::BlitImage {
                src: picture,
                src_layout: ImageLayout::TransferSrcOptimal,
                src_region: whole(extent),
                dst: image,
                dst_layout: ImageLayout::TransferDstOptimal,
                dst_region: whole(extent),
                filter: Filter::Linear,
            },
        ),
        Op::Command(
            Command::PipelineBarrier {
                src_stage: PipelineStage::Transfer,
                dst_stage: PipelineStage::Transfer,
                barriers: Barriers::One(close_target(image)),
            },
        ),
    ]
}

/// What post-processing records: the effects, then the copy.
pub open spec fn pp_ops(
    effects: Seq<Rc<PPEffect>>,
    handles: EffectHandles,
    swapchain: Swapchain,
    image_index: int,
) -> Seq<Op> {
    effects_ops(effects, effects.len(), handles, swapchain) + copy_ops(
        result_image(swapchain, effects.len()),
        swapchain.images@[image_index],
        swapchain.extent,
    )
}

impl VulkanManager {
    /// The handles that the effects of this renderer share.
    pub open spec fn effect_handles(self) -> EffectHandles {
        EffectHandles {
            render_pass: self.renderpass_pp,
            set_layout: self.desc_layout_pp,
            pipeline_layout: self.pipe_layout_pp,
        }
    }

    /// What is recorded to apply the registered effects to the lit scene, one after the other, and
    /// to copy the result to an image of the swapchain.
    pub fn render_pp(&self, swapchain_image_index: usize) -> (ops: Vec<Op>)
        requires
            swapchain_image_index < self.swapchain.images@.len(),
        ensures
            ops@ == pp_ops(
                self.pp_effects@,
                self.effect_handles(),
                self.swapchain,
                swapchain_image_index as int,
            ),
            ops@.len() == 7 * self.pp_effects@.len() + 3,
            ops@[ops@.len() - 2] == Op::Command(
                Command::BlitImage {
                    src: if self.pp_effects@.len() % 2 == 0 {
                        self.swapchain.resolve_image
                    } else {
                        self.swapchain.g0_image
                    },
                    src_layout: ImageLayout::TransferSrcOptimal,
                    src_region: whole(self.swapchain.extent),
                    dst: self.swapchain.images@[swapchain_image_index as int],
                    dst_layout: ImageLayout::TransferDstOptimal,
                    dst_region: whole(self.swapchain.extent),
                    filter: Filter::Linear,
                },
            ),
    {
        let extent = self.swapchain.extent;
        let mut ops: Vec<Op> = Vec::new();
        let mut direction = false;
        let mut n: usize = 0;
        while n < self.pp_effects.len()
            invariant
                n <= self.pp_effects@.len(),
                extent == self.swapchain.extent,
                direction == swapped(n as nat),
                ops@.len() == 7 * n,
                ops@ == effects_ops(
                    self.pp_effects@,
                    n as nat,
                    self.effect_handles(),
                    self.swapchain,
                ),
            decreases self.pp_effects@.len() - n,
        {
            let effect = &self.pp_effects[n];
            let ghost before = ops@;
            let framebuffer = if !direction {
                self.swapchain.framebuffers.pp_a
            } else {
                self.swapchain.framebuffers.pp_b
            };
            let image = if !direction {
                self.swapchain.resolve_imageview
            } else {
                self.swapchain.g0_imageview
            };
            ops.push(
                Op::Command(
                    Command::BeginRenderPass {
                        render_pass: self.renderpass_pp,
                        framebuffer,
                        extent,
                        clear: Clear::Nothing,
                    },
                ),
            );
            ops.push(Op::Command(Command::BindPipeline { pipeline: effect.pipeline }));
            ops.push(Op::Command(Command::SetViewport(Viewport::flipped(extent))));
            ops.push(
                Op::FetchDescriptorSet(
                    SetRequest {
                        layout: self.desc_layout_pp,
                        contents: DescriptorContents::ImageSampler {
                            image,
                            layout: ImageLayout::ShaderReadOnlyOptimal,
                            sampler: null_sampler(),
                        },
                    },
                ),
            );
            ops.push(
                Op::BindDescriptorSet {
                    layout: self.pipe_layout_pp,
                    first_set: 0,
                    set: SetRef::Latest,
                    dynamic_offset: None,
                },
            );
            Self::draw_quad(&mut ops);
            ops.push(Op::Command(Command::EndRenderPass));
            assert(ops@ == before + effect_ops(
                **effect,
                n as nat,
                self.effect_handles(),
                self.swapchain,
            ));
            direction = !direction;
            n += 1;
        }

        let picture = if direction {
            self.swapchain.g0_image
        } else {
            self.swapchain.resolve_image
        };
        let image = self.swapchain.images[swapchain_image_index];
        let start = Offset { x: 0, y: 0, z: 0 };
        let width: i32 = #[verifier::truncate]
        (extent.width as i32);
        let height: i32 = #[verifier::truncate]
        (extent.height as i32);
        let end = Offset { x: width, y: height, z: 1 };
        ops.push(
            Op::Command(
                Command::PipelineBarrier {
                    src_stage: PipelineStage::ColorAttachmentOutput,
                    dst_stage: PipelineStage::Transfer,
                    barriers: Barriers::Two(
                        ImageBarrier {
                            image,
                            src_access: Access::Nothing,
                            dst_access: Access::TransferWrite,
                            old_layout: ImageLayout::Undefined,
                            new_layout: ImageLayout::TransferDstOptimal,
                        },
                        ImageBarrier {
                            image: picture,
                            src_access: Access::ColorAttachmentWrite,
                            dst_access: Access::TransferRead,
                            old_layout: ImageLayout::ShaderReadOnlyOptimal,
                            new_layout: ImageLayout::TransferSrcOptimal,
                        },
                    ),
                },
            ),
        );
        ops.push(
            Op::Command(
                Command::BlitImage {
                    src: picture,
                    src_layout: ImageLayout::TransferSrcOptimal,
                    src_region: Region { start, end },
                    dst: image,
                    dst_layout: ImageLayout::TransferDstOptimal,
                    dst_region: Region { start, end },
                    filter: Filter::Linear,
                },
            ),
        );
        ops.push(
            Op::Command(
                Command::PipelineBarrier {
                    src_stage: PipelineStage::Transfer,
                    dst_stage: PipelineStage::Transfer,
                    barriers: Barriers::One(
                        ImageBarrier {
                            image,
                            src_access: Access::TransferWrite,
                            dst_access: Access::TransferRead,
                            old_layout: ImageLayout::TransferDstOptimal,
                            new_layout: ImageLayout::PresentSrc,
                        },
                    ),
                },
            ),
        );
        ops
    }
}

} // verus!
