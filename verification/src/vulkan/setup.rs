//! Creating the renderer: what is created, from what, and in which order.

use vstd::prelude::*;

use crate::engine::Info;
use crate::vulkan::command::{
    Access, Extent, Filter, ImageLayout, PipelineStage, ShaderStages,
};
use crate::vulkan::manager::{Framebuffers, PerFrameUniformBuffer, Swapchain, VulkanManager};

verus! {

/// The formats of images that the renderer chooses itself.
#[derive(Clone, Copy, Debug, PartialEq, Eq)]
pub enum Format {
    /// Four floating point numbers of 32 bits.
    R32G32B32A32Sfloat,
}

/// What happens to an attachment when a render pass begins.
#[derive(Clone, Copy, Debug, PartialEq, Eq)]
pub enum LoadOp {
    DontCare,
}

/// What happens to an attachment when a render pass ends.
#[derive(Clone, Copy, Debug, PartialEq, Eq)]
pub enum StoreOp {
    Store,
}

/// A color attachment with one sample for each pixel.
#[derive(Clone, Copy, Debug, PartialEq, Eq)]
pub struct AttachmentInfo {
    pub format: Format,
    pub load_op: LoadOp,
    pub store_op: StoreOp,
    pub initial_layout: ImageLayout,
    pub final_layout: ImageLayout,
}

/// The use of an attachment by a subpass.
#[derive(Clone, Copy, Debug, PartialEq, Eq)]
pub struct AttachmentReference {
    pub attachment: u32,
    pub layout: ImageLayout,
}

/// One end of a dependency between subpasses.
#[derive(Clone, Copy, Debug, PartialEq, Eq)]
pub enum SubpassEnd {
    /// What comes before the render pass.
    Outside,
    /// The subpass with this number.
    Subpass(u32),
}

/// That a subpass waits for something else.
#[derive(Clone, Copy, Debug, PartialEq, Eq)]
pub struct DependencyInfo {
    pub src_subpass: SubpassEnd,
    pub dst_subpass: SubpassEnd,
    pub src_stage: PipelineStage,
    pub dst_stage: PipelineStage,
    pub src_access: Access,
    pub dst_access: Access,
}

/// A render pass with one attachment, one graphics subpass that draws to it, and one dependency.
#[derive(Clone, Copy, Debug, PartialEq, Eq)]
pub struct RenderPassInfo {
    pub attachment: AttachmentInfo,
    pub color_attachment: AttachmentReference,
    pub dependency: DependencyInfo,
}

/// The kinds of resources that descriptors refer to.
#[derive(Clone, Copy, Debug, PartialEq, Eq)]
pub enum DescriptorType {
    UniformBufferDynamic,
    InputAttachment,
    CombinedImageSampler,
}

/// A place of a descriptor set.
#[derive(Clone, Copy, Debug, PartialEq, Eq)]
pub struct LayoutBinding {
    pub binding: u32,
    pub descriptor_type: DescriptorType,
    pub descriptor_count: u32,
    pub stages: ShaderStages,
}

/// The places of a descriptor set.
#[derive(Clone, Copy, Debug, PartialEq, Eq)]
pub enum SetLayoutInfo {
    /// The data that every shader of a frame sees.
    FrameData {
        camera: LayoutBinding,
        albedo_roughness: LayoutBinding,
        normal_metallic: LayoutBinding,
        depth: LayoutBinding,
    },
    /// The image that an effect samples, always with the same sampler.
    PostProcess { source: LayoutBinding, immutable_sampler: u64 },
}

/// A block of push constants.
#[derive(Clone, Copy, Debug, PartialEq, Eq)]
pub struct PushConstantRange {
    pub stages: ShaderStages,
    pub offset: u32,
    pub size: u32,
}

/// A pipeline layout with one descriptor set and at most one block of push constants.
#[derive(Clone, Copy, Debug, PartialEq, Eq)]
pub struct PipelineLayoutInfo {
    pub set_layout: u64,
    pub push_constants: Option<PushConstantRange>,
}

/// What is read beyond the border of an image.
#[derive(Clone, Copy, Debug, PartialEq, Eq)]
pub enum AddressMode {
    ClampToEdge,
}

/// How coarse a mip level may get.
#[derive(Clone, Copy, Debug, PartialEq, Eq)]
pub enum Lod {
    Level(u32),
    Unclamped,
}

/// A sampler. The address mode holds for all three axes.
#[derive(Clone, Copy, Debug, PartialEq, Eq)]
pub struct SamplerInfo {
    pub mag_filter: Filter,
    pub min_filter: Filter,
    pub mipmap_mode: Filter,
    pub address_mode: AddressMode,
    pub min_lod: Lod,
    pub max_lod: Lod,
}

/// A step of creating the renderer.
#[derive(Clone, Copy, Debug, PartialEq, Eq)]
pub enum SetupCall {
    /// Load the library behind the graphics interface.
    LoadEntry,
    /// Create the instance.
    InitInstance,
    InitDebugMessenger,
    InitSurface,
    SelectPhysicalDevice,
    InitQueueFamilies,
    /// Create the device. The answer is the queue that graphics commands go to.
    InitDeviceAndQueues,
    CreateAllocator,
    /// Create the swapchain, still without framebuffers.
    InitSwapchain,
    CreateRenderPass(RenderPassInfo),
    /// Find the format of the surface.
    ChooseFormat,
    /// Create the render pass of the geometry and resolve passes, for a surface of this format.
    InitRenderPass { format: i32 },
    /// Create the framebuffers of the swapchain for the two render passes.
    CreateFramebuffers { renderpass: u64, renderpass_pp: u64 },
    InitPools,
    CreateCommandbuffers { count: usize },
    /// Create the uniform buffer for the camera data of so many frames.
    CreateUniformBuffer { frames: u64 },
    CreateDescriptorSetLayout(SetLayoutInfo),
    CreatePipelineLayout(PipelineLayoutInfo),
    CreateDescriptorManager,
    CreateSemaphore,
    CreateFence { signaled: bool },
    CreateSampler(SamplerInfo),
}

/// What became of a step of creating the renderer.
#[derive(Debug, PartialEq, Eq)]
pub enum SetupReply<E> {
    /// Success, with nothing to keep.
    Done,
    Handle(u64),
    Handles(Vec<u64>),
    Format(i32),
    Swapchain(Swapchain),
    Framebuffers(Framebuffers),
    UniformBuffer(PerFrameUniformBuffer),
    /// An error, which ends the creation.
    Failed(E),
}

/// Where the creation of the renderer stands: the step to do next, or how it ended.
#[derive(Clone, Copy, Debug, PartialEq, Eq)]
pub enum SetupStage {
    LoadEntry,
    InitInstance,
    InitDebugMessenger,
    InitSurface,
    SelectPhysicalDevice,
    InitQueueFamilies,
    InitDeviceAndQueues,
    CreateAllocator,
    InitSwapchain,
    PostProcessRenderPass,
    ChooseFormat,
    InitRenderPass,
    CreateFramebuffers,
    InitPools,
    CreateCommandbuffers,
    CreateUniformBuffer,
    FrameDataLayout,
    GeometryPipelineLayout,
    ResolvePipelineLayout,
    CreateDescriptorManager,
    /// Of the frame whose objects are being created.
    AcquireSemaphore,
    /// Of the same frame.
    FinishedSemaphore,
    /// Of the same frame.
    FrameFence,
    CreateSampler,
    PostProcessSetLayout,
    PostProcessPipelineLayout,
    Finished,
    Failed,
}

/// A renderer that is being created.
pub struct Setup<E> {
    pub engine_info: Info,
    pub stage: SetupStage,
    /// The error of the step that failed, if one did.
    pub error: Option<E>,
    /// The format of the surface, once it is known.
    pub format: i32,
    /// What has been created so far.
    pub manager: VulkanManager,
}

/// The vertex shader alone.
pub open spec fn vertex_only() -> ShaderStages {
    ShaderStages { vertex: true, fragment: false }
}

/// The fragment shader alone.
pub open spec fn fragment_only() -> ShaderStages {
    ShaderStages { vertex: false, fragment: true }
}

/// The render pass of an effect. Whatever was in its image is lost; the picture it leaves can be
/// sampled. It waits until what was read from the image before has been read.
pub open spec fn pp_render_pass_info() -> RenderPassInfo {
    RenderPassInfo {
        attachment: AttachmentInfo {
            format: Format::R32G32B32A32Sfloat,
            load_op: LoadOp::DontCare,
            store_op: StoreOp::Store,
            initial_layout: ImageLayout::Undefined,
            final_layout: ImageLayout::ShaderReadOnlyOptimal,
        },
        color_attachment: AttachmentReference {
            attachment: 0,
            layout: ImageLayout::ColorAttachmentOptimal,
        },
        dependency: DependencyInfo {
            src_subpass: SubpassEnd::Outside,
            dst_subpass: SubpassEnd::Subpass(0),
            src_stage: PipelineStage::FragmentShader,
            dst_stage: PipelineStage::ColorAttachmentOutput,
            src_access: Access::ShaderRead,
            dst_access: Access::ColorAttachmentWrite,
        },
    }
}

/// An input attachment of the fragment shader.
pub open spec fn input_binding(binding: u32) -> LayoutBinding {
    LayoutBinding {
        binding,
        descriptor_type: DescriptorType::InputAttachment,
        descriptor_count: 1,
        stages: fragment_only(),
    }
}

/// The places of the data that every shader of a frame sees.
pub open spec fn frame_data_layout_info() -> SetLayoutInfo {
    SetLayoutInfo::FrameData {
        camera: LayoutBinding {
            binding: 0,
            descriptor_type: DescriptorType::UniformBufferDynamic,
            descriptor_count: 1,
            stages: ShaderStages { vertex: true, fragment: true },
        },
        albedo_roughness: input_binding(1),
        normal_metallic: input_binding(2),
        depth: input_binding(3),
    }
}

/// The pipeline layout of the geometry pass: the data of the frame, and a transform.
pub open spec fn gpass_layout_info(set_layout: u64) -> PipelineLayoutInfo {
    PipelineLayoutInfo {
        set_layout,
        push_constants: Some(PushConstantRange { stages: vertex_only(), offset: 0, size: 128 }),
    }
}

/// The pipeline layout of the resolve pass: the data of the frame, and a light.
pub open spec fn resolve_layout_info(set_layout: u64) -> PipelineLayoutInfo {
    PipelineLayoutInfo {
        set_layout,
        push_constants: Some(PushConstantRange { stages: fragment_only(), offset: 0, size: 32 }),
    }
}

/// The sampler of the effects.
pub open spec fn sampler_info() -> SamplerInfo {
    SamplerInfo {
        mag_filter: Filter::Linear,
        min_filter: Filter::Linear,
        mipmap_mode: Filter::Nearest,
        address_mode: AddressMode::ClampToEdge,
        min_lod: Lod::Level(0),
        max_lod: Lod::Unclamped,
    }
}

/// The place of the image that an effect samples.
pub open spec fn pp_set_layout_info(sampler: u64) -> SetLayoutInfo {
    SetLayoutInfo::PostProcess {
        source: LayoutBinding {
            binding: 0,
            descriptor_type: DescriptorType::CombinedImageSampler,
            descriptor_count: 1,
            stages: fragment_only(),
        },
        immutable_sampler: sampler,
    }
}

/// The pipeline layout of the effects.
pub open spec fn pp_layout_info(set_layout: u64) -> PipelineLayoutInfo {
    PipelineLayoutInfo { set_layout, push_constants: None }
}

/// Where the creation goes once the objects of some frames exist: on to the next frame, or past
/// the last one.
pub open spec fn stage_after_frames(created: int, frames: int) -> SetupStage {
    if created < frames {
        SetupStage::AcquireSemaphore
    } else {
        SetupStage::CreateSampler
    }
}

impl<E> Setup<E> {
    /// How many frames have all of their objects.
    pub open spec fn complete_frames(self) -> int {
        self.manager.frame_resource_fences@.len() as int
    }

    /// How many frames there will be.
    pub open spec fn frames(self) -> int {
        self.manager.max_frames_in_flight as int
    }

    /// How many steps have been done.
    pub open spec fn steps_done(self) -> int {
        let per_frame = 3 * self.complete_frames();
        match self.stage {
            SetupStage::LoadEntry => 0,
            SetupStage::InitInstance => 1,
            SetupStage::InitDebugMessenger => 2,
            SetupStage::InitSurface => 3,
            SetupStage::SelectPhysicalDevice => 4,
            SetupStage::InitQueueFamilies => 5,
            SetupStage::InitDeviceAndQueues => 6,
            SetupStage::CreateAllocator => 7,
            SetupStage::InitSwapchain => 8,
            SetupStage::PostProcessRenderPass => 9,
            SetupStage::ChooseFormat => 10,
            SetupStage::InitRenderPass => 11,
            SetupStage::CreateFramebuffers => 12,
            SetupStage::InitPools => 13,
            SetupStage::CreateCommandbuffers => 14,
            SetupStage::CreateUniformBuffer => 15,
            SetupStage::FrameDataLayout => 16,
            SetupStage::GeometryPipelineLayout => 17,
            SetupStage::ResolvePipelineLayout => 18,
            SetupStage::CreateDescriptorManager => 19,
            SetupStage::AcquireSemaphore => 20 + per_frame,
            SetupStage::FinishedSemaphore => 21 + per_frame,
            SetupStage::FrameFence => 22 + per_frame,
            SetupStage::CreateSampler => 20 + per_frame,
            SetupStage::PostProcessSetLayout => 21 + per_frame,
            SetupStage::PostProcessPipelineLayout => 22 + per_frame,
            SetupStage::Finished => 23 + per_frame,
            SetupStage::Failed => 0,
        }
    }

    /// What exists is what the steps done so far have created; nothing has been registered, and
    /// the current frame is the first.
    pub open spec fn wf(self) -> bool {
        let m = self.manager;
        let acquire = m.image_acquire_semaphores@.len();
        let finished = m.render_finished_semaphores@.len();
        let fences = m.frame_resource_fences@.len();
        &&& m.current_frame_index == 0
        &&& m.lighting_pipelines@.len() == 0
        &&& m.pp_effects@.len() == 0
        &&& self.error is Some <==> self.stage is Failed
        &&& self.stage !is Failed ==> {
            &&& match self.stage {
                SetupStage::AcquireSemaphore => acquire == fences && finished == fences && fences
                    < self.frames(),
                SetupStage::FinishedSemaphore => acquire == fences + 1 && finished == fences
                    && fences < self.frames(),
                SetupStage::FrameFence => acquire == fences + 1 && finished == fences + 1 && fences
                    < self.frames(),
                _ => {
                    let all = if self.steps_done() < 20 {
                        0
                    } else {
                        self.frames()
                    };
                    acquire == all && finished == all && fences == all
                },
            }
            &&& self.steps_done() > 14 ==> m.commandbuffers@.len() == self.frames()
            &&& self.steps_done() > 15 ==> m.uniform_buffer.offsets@.len() == self.frames()
        }
    }

    /// The step to do next, or nothing once the creation has ended.
    pub open spec fn call(self) -> Option<SetupCall> {
        let m = self.manager;
        match self.stage {
            SetupStage::LoadEntry => Some(SetupCall::LoadEntry),
            SetupStage::InitInstance => Some(SetupCall::InitInstance),
            SetupStage::InitDebugMessenger => Some(SetupCall::InitDebugMessenger),
            SetupStage::InitSurface => Some(SetupCall::InitSurface),
            SetupStage::SelectPhysicalDevice => Some(SetupCall::SelectPhysicalDevice),
            SetupStage::InitQueueFamilies => Some(SetupCall::InitQueueFamilies),
            SetupStage::InitDeviceAndQueues => Some(SetupCall::InitDeviceAndQueues),
            SetupStage::CreateAllocator => Some(SetupCall::CreateAllocator),
            SetupStage::InitSwapchain => Some(SetupCall::InitSwapchain),
            SetupStage::PostProcessRenderPass => Some(
                SetupCall::CreateRenderPass(pp_render_pass_info()),
            ),
            SetupStage::ChooseFormat => Some(SetupCall::ChooseFormat),
            SetupStage::InitRenderPass => Some(SetupCall::InitRenderPass { format: self.format }),
            SetupStage::CreateFramebuffers => Some(
                SetupCall::CreateFramebuffers {
                    renderpass: m.renderpass,
                    renderpass_pp: m.renderpass_pp,
                },
            ),
            SetupStage::InitPools => Some(SetupCall::InitPools),
            SetupStage::CreateCommandbuffers => Some(
                SetupCall::CreateCommandbuffers { count: m.max_frames_in_flight as usize },
            ),
            SetupStage::CreateUniformBuffer => Some(
                SetupCall::CreateUniformBuffer { frames: m.max_frames_in_flight as u64 },
            ),
            SetupStage::FrameDataLayout => Some(
                SetupCall::CreateDescriptorSetLayout(frame_data_layout_info()),
            ),
            SetupStage::GeometryPipelineLayout => Some(
                SetupCall::CreatePipelineLayout(gpass_layout_info(m.desc_layout_frame_data)),
            ),
            SetupStage::ResolvePipelineLayout => Some(
                SetupCall::CreatePipelineLayout(resolve_layout_info(m.desc_layout_frame_data)),
            ),
            SetupStage::CreateDescriptorManager => Some(SetupCall::CreateDescriptorManager),
            SetupStage::AcquireSemaphore => Some(SetupCall::CreateSemaphore),
            SetupStage::FinishedSemaphore => Some(SetupCall::CreateSemaphore),
            SetupStage::FrameFence => Some(SetupCall::CreateFence { signaled: true }),
            SetupStage::CreateSampler => Some(SetupCall::CreateSampler(sampler_info())),
            SetupStage::PostProcessSetLayout => Some(
                SetupCall::CreateDescriptorSetLayout(pp_set_layout_info(m.sampler_linear)),
            ),
            SetupStage::PostProcessPipelineLayout => Some(
                SetupCall::CreatePipelineLayout(pp_layout_info(m.desc_layout_pp)),
            ),
            SetupStage::Finished => None,
            SetupStage::Failed => None,
        }
    }

    /// Whether a reply is one that the current step can have. Creating a surface cannot fail, and
    /// what is created for each frame comes in the right number.
    pub open spec fn answered_by(self, reply: SetupReply<E>) -> bool {
        match self.stage {
            SetupStage::Finished => false,
            SetupStage::Failed => false,
            SetupStage::InitSurface => reply is Done,
            SetupStage::LoadEntry
            | SetupStage::InitInstance
            | SetupStage::InitDebugMessenger
            | SetupStage::SelectPhysicalDevice
            | SetupStage::InitQueueFamilies
            | SetupStage::CreateAllocator
            | SetupStage::InitPools
            | SetupStage::CreateDescriptorManager => reply is Done || reply is Failed,
            SetupStage::InitSwapchain => reply is Swapchain || reply is Failed,
            SetupStage::ChooseFormat => reply is Format || reply is Failed,
            SetupStage::CreateFramebuffers => reply is Framebuffers || reply is Failed,
            SetupStage::CreateCommandbuffers => {
                ||| reply matches SetupReply::Handles(handles) && handles@.len() == self.frames()
                ||| reply is Failed
            },
            SetupStage::CreateUniformBuffer => {
                ||| reply matches SetupReply::UniformBuffer(buffer) && buffer.offsets@.len()
                    == self.frames()
                ||| reply is Failed
            },
            _ => reply is Handle || reply is Failed,
        }
    }

    /// The stage after a step that did not fail.
    pub open spec fn next_stage(self) -> SetupStage {
        match self.stage {
            SetupStage::LoadEntry => SetupStage::InitInstance,
            SetupStage::InitInstance => SetupStage::InitDebugMessenger,
            SetupStage::InitDebugMessenger => SetupStage::InitSurface,
            SetupStage::InitSurface => SetupStage::SelectPhysicalDevice,
            SetupStage::SelectPhysicalDevice => SetupStage::InitQueueFamilies,
            SetupStage::InitQueueFamilies => SetupStage::InitDeviceAndQueues,
            SetupStage::InitDeviceAndQueues => SetupStage::CreateAllocator,
            SetupStage::CreateAllocator => SetupStage::InitSwapchain,
            SetupStage::InitSwapchain => SetupStage::PostProcessRenderPass,
            SetupStage::PostProcessRenderPass => SetupStage::ChooseFormat,
            SetupStage::ChooseFormat => SetupStage::InitRenderPass,
            SetupStage::InitRenderPass => SetupStage::CreateFramebuffers,
            SetupStage::CreateFramebuffers => SetupStage::InitPools,
            SetupStage::InitPools => SetupStage::CreateCommandbuffers,
            SetupStage::CreateCommandbuffers => SetupStage::CreateUniformBuffer,
            SetupStage::CreateUniformBuffer => SetupStage::FrameDataLayout,
            SetupStage::FrameDataLayout => SetupStage::GeometryPipelineLayout,
            SetupStage::GeometryPipelineLayout => SetupStage::ResolvePipelineLayout,
            SetupStage::ResolvePipelineLayout => SetupStage::CreateDescriptorManager,
            SetupStage::CreateDescriptorManager => stage_after_frames(0, self.frames()),
            SetupStage::AcquireSemaphore => SetupStage::FinishedSemaphore,
            SetupStage::FinishedSemaphore => SetupStage::FrameFence,
            SetupStage::FrameFence => stage_after_frames(
                self.complete_frames() + 1,
                self.frames(),
            ),
            SetupStage::CreateSampler => SetupStage::PostProcessSetLayout,
            SetupStage::PostProcessSetLayout => SetupStage::PostProcessPipelineLayout,
            SetupStage::PostProcessPipelineLayout => SetupStage::Finished,
            SetupStage::Finished => SetupStage::Finished,
            SetupStage::Failed => SetupStage::Failed,
        }
    }

    /// Whether `manager` is what has been created so far with the outcome of one more step that
    /// did not fail: the outcome goes to the place that belongs to the step, and everything else
    /// stays.
    pub open spec fn keeps(self, reply: SetupReply<E>, manager: VulkanManager) -> bool {
        let m = self.manager;
        match (self.stage, reply) {
            (SetupStage::InitDeviceAndQueues, SetupReply::Handle(queue)) => manager
                == VulkanManager { graphics_queue: queue, ..m },
            (SetupStage::InitSwapchain, SetupReply::Swapchain(swapchain)) => manager
                == VulkanManager { swapchain, ..m },
            (SetupStage::PostProcessRenderPass, SetupReply::Handle(handle)) => manager
                == VulkanManager { renderpass_pp: handle, ..m },
            (SetupStage::InitRenderPass, SetupReply::Handle(handle)) => manager == VulkanManager {
                renderpass: handle,
                ..m
            },
            (SetupStage::CreateFramebuffers, SetupReply::Framebuffers(framebuffers)) => manager
                == VulkanManager { swapchain: Swapchain { framebuffers, ..m.swapchain }, ..m },
            (SetupStage::CreateCommandbuffers, SetupReply::Handles(handles)) => manager
                == VulkanManager { commandbuffers: handles, ..m },
            (SetupStage::CreateUniformBuffer, SetupReply::UniformBuffer(buffer)) => manager
                == VulkanManager { uniform_buffer: buffer, ..m },
            (SetupStage::FrameDataLayout, SetupReply::Handle(handle)) => manager == VulkanManager {
                desc_layout_frame_data: handle,
                ..m
            },
            (SetupStage::GeometryPipelineLayout, SetupReply::Handle(handle)) => manager
                == VulkanManager { pipeline_layout_gpass: handle, ..m },
            (SetupStage::ResolvePipelineLayout, SetupReply::Handle(handle)) => manager
                == VulkanManager { pipeline_layout_resolve_pass: handle, ..m },
            (SetupStage::AcquireSemaphore, SetupReply::Handle(handle)) => {
                &&& manager.image_acquire_semaphores@ == m.image_acquire_semaphores@.push(handle)
                &&& manager == VulkanManager {
                    image_acquire_semaphores: manager.image_acquire_semaphores,
                    ..m
                }
            },
            (SetupStage::FinishedSemaphore, SetupReply::Handle(handle)) => {
                &&& manager.render_finished_semaphores@ == m.render_finished_semaphores@.push(
                    handle,
                )
                &&& manager == VulkanManager {
                    render_finished_semaphores: manager.render_finished_semaphores,
                    ..m
                }
            },
            (SetupStage::FrameFence, SetupReply::Handle(handle)) => {
                &&& manager.frame_resource_fences@ == m.frame_resource_fences@.push(handle)
                &&& manager == VulkanManager {
                    frame_resource_fences: manager.frame_resource_fences,
                    ..m
                }
            },
            (SetupStage::CreateSampler, SetupReply::Handle(handle)) => manager == VulkanManager {
                sampler_linear: handle,
                ..m
            },
            (SetupStage::PostProcessSetLayout, SetupReply::Handle(handle)) => manager
                == VulkanManager { desc_layout_pp: handle, ..m },
            (SetupStage::PostProcessPipelineLayout, SetupReply::Handle(handle)) => manager
                == VulkanManager { pipe_layout_pp: handle, ..m },
            _ => manager == m,
        }
    }

    /// The format of the surface after a step.
    pub open spec fn format_after(self, reply: SetupReply<E>) -> i32 {
        match (self.stage, reply) {
            (SetupStage::ChooseFormat, SetupReply::Format(format)) => format,
            _ => self.format,
        }
    }

    /// Whether `next` is where the creation stands after the outcome of the current step. A failed
    /// step ends it with its error and leaves what exists as it is.
    pub open spec fn leads_to(self, reply: SetupReply<E>, next: Setup<E>) -> bool {
        &&& next.engine_info == self.engine_info
        &&& match reply {
            SetupReply::Failed(error) => {
                &&& next.stage == SetupStage::Failed
                &&& next.error == Some(error)
                &&& next.format == self.format
                &&& next.manager == self.manager
            },
            _ => {
                &&& next.stage == self.next_stage()
                &&& next.error == self.error
                &&& next.format == self.format_after(reply)
                &&& self.keeps(reply, next.manager)
            },
        }
    }

    /// How the creation ended, or nothing while it goes on: with the renderer, or with the error of
    /// the step that failed.
    pub open spec fn outcome(self) -> Option<Result<VulkanManager, E>> {
        match self.stage {
            SetupStage::Finished => Some(Ok(self.manager)),
            SetupStage::Failed => Some(Err(self.error->0)),
            _ => None,
        }
    }
}

/// Whether a renderer is one of which nothing exists yet: all handles are zero, and there is
/// neither an image nor anything of a frame.
pub open spec fn nothing_created(m: VulkanManager) -> bool {
    &&& m.graphics_queue == 0
    &&& m.swapchain.swapchain == 0
    &&& m.swapchain.extent == Extent { width: 0, height: 0 }
    &&& m.swapchain.images@.len() == 0
    &&& m.swapchain.g0_image == 0 && m.swapchain.resolve_image == 0
    &&& m.swapchain.g0_imageview == 0 && m.swapchain.g1_imageview == 0
    &&& m.swapchain.resolve_imageview == 0 && m.swapchain.depth_imageview_depth_only == 0
    &&& m.swapchain.framebuffers == Framebuffers { deferred: 0, pp_a: 0, pp_b: 0 }
    &&& m.renderpass == 0 && m.renderpass_pp == 0
    &&& m.uniform_buffer.buffer == 0 && m.uniform_buffer.size == 0
    &&& m.uniform_buffer.offsets@.len() == 0
    &&& m.commandbuffers@.len() == 0
    &&& m.desc_layout_frame_data == 0 && m.desc_layout_pp == 0
    &&& m.pipeline_layout_gpass == 0 && m.pipeline_layout_resolve_pass == 0
    &&& m.pipe_layout_pp == 0
    &&& m.sampler_linear == 0
}

impl VulkanManager {
    /// Starts the creation of a renderer with so many frames in flight. Nothing exists yet.
    pub fn new<E>(engine_info: Info, max_frames_in_flight: u8) -> (setup: Setup<E>)
        ensures
            setup.engine_info == engine_info,
            setup.stage == SetupStage::LoadEntry,
            setup.error is None,
            setup.format == 0,
            setup.manager.max_frames_in_flight == max_frames_in_flight,
            nothing_created(setup.manager),
            setup.wf(),
    {
        Setup {
            engine_info,
            stage: SetupStage::LoadEntry,
            error: None,
            format: 0,
            manager: VulkanManager {
                graphics_queue: 0,
                swapchain: Swapchain {
                    swapchain: 0,
                    extent: Extent { width: 0, height: 0 },
                    images: Vec::new(),
                    g0_image: 0,
                    resolve_image: 0,
                    g0_imageview: 0,
                    g1_imageview: 0,
                    resolve_imageview: 0,
                    depth_imageview_depth_only: 0,
                    framebuffers: Framebuffers { deferred: 0, pp_a: 0, pp_b: 0 },
                },
                renderpass: 0,
                commandbuffers: Vec::new(),
                uniform_buffer: PerFrameUniformBuffer { buffer: 0, size: 0, offsets: Vec::new() },
                desc_layout_frame_data: 0,
                pipeline_layout_gpass: 0,
                pipeline_layout_resolve_pass: 0,
                max_frames_in_flight,
                current_frame_index: 0,
                image_acquire_semaphores: Vec::new(),
                render_finished_semaphores: Vec::new(),
                frame_resource_fences: Vec::new(),
                lighting_pipelines: Vec::new(),
                sampler_linear: 0,
                desc_layout_pp: 0,
                pipe_layout_pp: 0,
                renderpass_pp: 0,
                pp_effects: Vec::new(),
            },
        }
    }
}

impl RenderPassInfo {
    /// The render pass of an effect.
    fn post_process() -> (info: RenderPassInfo)
        ensures
            info == pp_render_pass_info(),
    {
        RenderPassInfo {
            attachment: AttachmentInfo {
                format: Format::R32G32B32A32Sfloat,
                load_op: LoadOp::DontCare,
                store_op: StoreOp::Store,
                initial_layout: ImageLayout::Undefined,
                final_layout: ImageLayout::ShaderReadOnlyOptimal,
            },
            color_attachment: AttachmentReference {
                attachment: 0,
                layout: ImageLayout::ColorAttachmentOptimal,
            },
            dependency: DependencyInfo {
                src_subpass: SubpassEnd::Outside,
                dst_subpass: SubpassEnd::Subpass(0),
                src_stage: PipelineStage::FragmentShader,
                dst_stage: PipelineStage::ColorAttachmentOutput,
                src_access: Access::ShaderRead,
                dst_access: Access::ColorAttachmentWrite,
            },
        }
    }
}

impl LayoutBinding {
    /// An input attachment of the fragment shader.
    fn input(binding: u32) -> (info: LayoutBinding)
        ensures
            info == input_binding(binding),
    {
        LayoutBinding {
            binding,
            descriptor_type: DescriptorType::InputAttachment,
            descriptor_count: 1,
            stages: ShaderStages { vertex: false, fragment: true },
        }
    }
}

impl SetLayoutInfo {
    /// The places of the data that every shader of a frame sees.
    fn frame_data() -> (info: SetLayoutInfo)
        ensures
            info == frame_data_layout_info(),
    {
        SetLayoutInfo::FrameData {
            camera: LayoutBinding {
                binding: 0,
                descriptor_type: DescriptorType::UniformBufferDynamic,
                descriptor_count: 1,
                stages: ShaderStages { vertex: true, fragment: true },
            },
            albedo_roughness: LayoutBinding::input(1),
            normal_metallic: LayoutBinding::input(2),
            depth: LayoutBinding::input(3),
        }
    }

    /// The place of the image that an effect samples.
    fn post_process(sampler: u64) -> (info: SetLayoutInfo)
        ensures
            info == pp_set_layout_info(sampler),
    {
        SetLayoutInfo::PostProcess {
            source: LayoutBinding {
                binding: 0,
                descriptor_type: DescriptorType::CombinedImageSampler,
                descriptor_count: 1,
                stages: ShaderStages { vertex: false, fragment: true },
            },
            immutable_sampler: sampler,
        }
    }
}

impl PipelineLayoutInfo {
    /// The pipeline layout of the geometry pass.
    fn geometry(set_layout: u64) -> (info: PipelineLayoutInfo)
        ensures
            info == gpass_layout_info(set_layout),
    {
        PipelineLayoutInfo {
            set_layout,
            push_constants: Some(
                PushConstantRange {
                    stages: ShaderStages { vertex: true, fragment: false },
                    offset: 0,
                    size: 128,
                },
            ),
        }
    }

    /// The pipeline layout of the resolve pass.
    fn resolve(set_layout: u64) -> (info: PipelineLayoutInfo)
        ensures
            info == resolve_layout_info(set_layout),
    {
        PipelineLayoutInfo {
            set_layout,
            push_constants: Some(
                PushConstantRange {
                    stages: ShaderStages { vertex: false, fragment: true },
                    offset: 0,
                    size: 32,
                },
            ),
        }
    }
}

impl SamplerInfo {
    /// The sampler of the effects.
    fn linear() -> (info: SamplerInfo)
        ensures
            info == sampler_info(),
    {
        SamplerInfo {
            mag_filter: Filter::Linear,
            min_filter: Filter::Linear,
            mipmap_mode: Filter::Nearest,
            address_mode: AddressMode::ClampToEdge,
            min_lod: Lod::Level(0),
            max_lod: Lod::Unclamped,
        }
    }
}

impl<E> Setup<E> {
    /// The step to do next, or nothing once the creation has ended.
    pub fn next(&self) -> (call: Option<SetupCall>)
        ensures
            call == self.call(),
    {
        let m = &self.manager;
        let call = match self.stage {
            SetupStage::LoadEntry => SetupCall::LoadEntry,
            SetupStage::InitInstance => SetupCall::InitInstance,
            SetupStage::InitDebugMessenger => SetupCall::InitDebugMessenger,
            SetupStage::InitSurface => SetupCall::InitSurface,
            SetupStage::SelectPhysicalDevice => SetupCall::SelectPhysicalDevice,
            SetupStage::InitQueueFamilies => SetupCall::InitQueueFamilies,
            SetupStage::InitDeviceAndQueues => SetupCall::InitDeviceAndQueues,
            SetupStage::CreateAllocator => SetupCall::CreateAllocator,
            SetupStage::InitSwapchain => SetupCall::InitSwapchain,
            SetupStage::PostProcessRenderPass => SetupCall::CreateRenderPass(
                RenderPassInfo::post_process(),
            ),
            SetupStage::ChooseFormat => SetupCall::ChooseFormat,
            SetupStage::InitRenderPass => SetupCall::InitRenderPass { format: self.format },
            SetupStage::CreateFramebuffers => SetupCall::CreateFramebuffers {
                renderpass: m.renderpass,
                renderpass_pp: m.renderpass_pp,
            },
            SetupStage::InitPools => SetupCall::InitPools,
            SetupStage::CreateCommandbuffers => SetupCall::CreateCommandbuffers {
                count: m.max_frames_in_flight as usize,
            },
            SetupStage::CreateUniformBuffer => SetupCall::CreateUniformBuffer {
                frames: m.max_frames_in_flight as u64,
            },
            SetupStage::FrameDataLayout => SetupCall::CreateDescriptorSetLayout(
                SetLayoutInfo::frame_data(),
            ),
            SetupStage::GeometryPipelineLayout => SetupCall::CreatePipelineLayout(
                PipelineLayoutInfo::geometry(m.desc_layout_frame_data),
            ),
            SetupStage::ResolvePipelineLayout => SetupCall::CreatePipelineLayout(
                PipelineLayoutInfo::resolve(m.desc_layout_frame_data),
            ),
            SetupStage::CreateDescriptorManager => SetupCall::CreateDescriptorManager,
            SetupStage::AcquireSemaphore => SetupCall::CreateSemaphore,
            SetupStage::FinishedSemaphore => SetupCall::CreateSemaphore,
            SetupStage::FrameFence => SetupCall::CreateFence { signaled: true },
            SetupStage::CreateSampler => SetupCall::CreateSampler(SamplerInfo::linear()),
            SetupStage::PostProcessSetLayout => SetupCall::CreateDescriptorSetLayout(
                SetLayoutInfo::post_process(m.sampler_linear),
            ),
            SetupStage::PostProcessPipelineLayout => SetupCall::CreatePipelineLayout(
                PipelineLayoutInfo { set_layout: m.desc_layout_pp, push_constants: None },
            ),
            SetupStage::Finished => {
                return None;
            },
            SetupStage::Failed => {
                return None;
            },
        };
        Some(call)
    }

    /// Where the creation goes once the objects of the frames so far exist.
    fn after_frames(&self) -> (stage: SetupStage)
        ensures
            stage == stage_after_frames(self.complete_frames(), self.frames()),
    {
        if self.manager.frame_resource_fences.len() < self.manager.max_frames_in_flight as usize {
            SetupStage::AcquireSemaphore
        } else {
            SetupStage::CreateSampler
        }
    }

    /// Takes what became of the current step: what it created is kept, and the creation goes on to
    /// the next step, or ends with an error.
    pub fn reply(&mut self, reply: SetupReply<E>)
        requires
            old(self).wf(),
            old(self).answered_by(reply),
        ensures
            old(self).leads_to(reply, *final(self)),
            final(self).wf(),
    {
        match (self.stage, reply) {
            (_, SetupReply::Failed(error)) => {
                self.stage = SetupStage::Failed;
                self.error = Some(error);
            },
            (SetupStage::LoadEntry, _) => {
                self.stage = SetupStage::InitInstance;
            },
            (SetupStage::InitInstance, _) => {
                self.stage = SetupStage::InitDebugMessenger;
            },
            (SetupStage::InitDebugMessenger, _) => {
                self.stage = SetupStage::InitSurface;
            },
            (SetupStage::InitSurface, _) => {
                self.stage = SetupStage::SelectPhysicalDevice;
            },
            (SetupStage::SelectPhysicalDevice, _) => {
                self.stage = SetupStage::InitQueueFamilies;
            },
            (SetupStage::InitQueueFamilies, _) => {
                self.stage = SetupStage::InitDeviceAndQueues;
            },
            (SetupStage::InitDeviceAndQueues, SetupReply::Handle(queue)) => {
                self.manager.graphics_queue = queue;
                self.stage = SetupStage::CreateAllocator;
            },
            (SetupStage::CreateAllocator, _) => {
                self.stage = SetupStage::InitSwapchain;
            },
            (SetupStage::InitSwapchain, SetupReply::Swapchain(swapchain)) => {
                self.manager.swapchain = swapchain;
                self.stage = SetupStage::PostProcessRenderPass;
            },
            (SetupStage::PostProcessRenderPass, SetupReply::Handle(handle)) => {
                self.manager.renderpass_pp = handle;
                self.stage = SetupStage::ChooseFormat;
            },
            (SetupStage::ChooseFormat, SetupReply::Format(format)) => {
                self.format = format;
                self.stage = SetupStage::InitRenderPass;
            },
            (SetupStage::InitRenderPass, SetupReply::Handle(handle)) => {
                self.manager.renderpass = handle;
                self.stage = SetupStage::CreateFramebuffers;
            },
            (SetupStage::CreateFramebuffers, SetupReply::Framebuffers(framebuffers)) => {
                self.manager.swapchain.framebuffers = framebuffers;
                self.stage = SetupStage::InitPools;
            },
            (SetupStage::InitPools, _) => {
                self.stage = SetupStage::CreateCommandbuffers;
            },
            (SetupStage::CreateCommandbuffers, SetupReply::Handles(handles)) => {
                self.manager.commandbuffers = handles;
                self.stage = SetupStage::CreateUniformBuffer;
            },
            (SetupStage::CreateUniformBuffer, SetupReply::UniformBuffer(buffer)) => {
                self.manager.uniform_buffer = buffer;
                self.stage = SetupStage::FrameDataLayout;
            },
            (SetupStage::FrameDataLayout, SetupReply::Handle(handle)) => {
                self.manager.desc_layout_frame_data = handle;
                self.stage = SetupStage::GeometryPipelineLayout;
            },
            (SetupStage::GeometryPipelineLayout, SetupReply::Handle(handle)) => {
                self.manager.pipeline_layout_gpass = handle;
                self.stage = SetupStage::ResolvePipelineLayout;
            },
            (SetupStage::ResolvePipelineLayout, SetupReply::Handle(handle)) => {
                self.manager.pipeline_layout_resolve_pass = handle;
                self.stage = SetupStage::CreateDescriptorManager;
            },
            (SetupStage::CreateDescriptorManager, _) => {
                self.stage = self.after_frames();
            },
            (SetupStage::AcquireSemaphore, SetupReply::Handle(handle)) => {
                self.manager.image_acquire_semaphores.push(handle);
                self.stage = SetupStage::FinishedSemaphore;
            },
            (SetupStage::FinishedSemaphore, SetupReply::Handle(handle)) => {
                self.manager.render_finished_semaphores.push(handle);
                self.stage = SetupStage::FrameFence;
            },
            (SetupStage::FrameFence, SetupReply::Handle(handle)) => {
                self.manager.frame_resource_fences.push(handle);
                self.stage = self.after_frames();
            },
            (SetupStage::CreateSampler, SetupReply::Handle(handle)) => {
                self.manager.sampler_linear = handle;
                self.stage = SetupStage::PostProcessSetLayout;
            },
            (SetupStage::PostProcessSetLayout, SetupReply::Handle(handle)) => {
                self.manager.desc_layout_pp = handle;
                self.stage = SetupStage::PostProcessPipelineLayout;
            },
            (SetupStage::PostProcessPipelineLayout, SetupReply::Handle(handle)) => {
                self.manager.pipe_layout_pp = handle;
                self.stage = SetupStage::Finished;
            },
            _ => {},
        }
    }

    /// How a creation that has ended did so: with the renderer, whose frames have all their objects
    /// and where nothing is registered yet, or with the error of the step that failed.
    pub fn finish(self) -> (outcome: Result<VulkanManager, E>)
        requires
            self.wf(),
            self.call() is None,
        ensures
            self.outcome() == Some(outcome),
            outcome matches Ok(manager) ==> {
                &&& manager.wf()
                &&& manager.current_frame_index == 0
                &&& manager.lighting_pipelines@.len() == 0
                &&& manager.pp_effects@.len() == 0
            },
    {
        match self.error {
            Some(error) => Err(error),
            None => Ok(self.manager),
        }
    }
}

/// Every step that does not fail takes the creation one step further, and it takes exactly
/// twenty-three steps and three more for each frame. Of a creation that is going on, the next step
/// is known. A step that fails is the last one, and its own error is how the creation ends. What
/// exists always fits the steps done so far.
pub proof fn law_setup_takes_its_course<E>(setup: Setup<E>, reply: SetupReply<E>, next: Setup<E>)
    requires
        setup.wf(),
        setup.answered_by(reply),
        setup.leads_to(reply, next),
    ensures
        reply !is Failed ==> next.steps_done() == setup.steps_done() + 1,
        reply !is Failed ==> (next.stage is Finished <==> next.steps_done() == 23 + 3
            * setup.frames()),
        reply matches SetupReply::Failed(error) ==> next.call() is None && next.outcome() == Some(
            Err::<VulkanManager, E>(error),
        ),
        setup.call() is Some,
        setup.outcome() is None,
        next.wf(),
        next.frames() == setup.frames(),
        reply !is Failed ==> next.outcome() == if next.stage is Finished {
            Some(Ok::<VulkanManager, E>(next.manager))
        } else {
            None
        },
        setup.steps_done() < 23 + 3 * setup.frames(),
{
}

/// Whether `states` is where a creation stands from its start on, after each of some replies.
pub open spec fn course<E>(states: Seq<Setup<E>>, replies: Seq<SetupReply<E>>) -> bool {
    &&& states.len() == replies.len() + 1
    &&& states[0].wf()
    &&& states[0].stage == SetupStage::LoadEntry
    &&& forall|i: int|
        0 <= i < replies.len() ==> {
            &&& (#[trigger] states[i]).answered_by(replies[i])
            &&& states[i].leads_to(replies[i], states[i + 1])
        }
}

/// A creation does its steps one after the other as long as none fails, and has the renderer after
/// twenty-three steps and three more for each frame, not before. If a step fails, the creation ends
/// there with the error of that step.
pub proof fn law_setup_as_a_whole<E>(states: Seq<Setup<E>>, replies: Seq<SetupReply<E>>)
    requires
        course(states, replies),
        forall|i: int| 0 <= i < replies.len() - 1 ==> !(#[trigger] replies[i] is Failed),
    ensures
        ({
            let steps = 23 + 3 * states[0].frames();
            &&& states.last().wf()
            &&& replies.len() <= steps
            &&& if replies.len() > 0 && replies.last() is Failed {
                states.last().outcome() == Some(Err::<VulkanManager, E>(replies.last()->Failed_0))
            } else {
                &&& states.last().steps_done() == replies.len()
                &&& states.last().frames() == states[0].frames()
                &&& states.last().outcome() == if replies.len() == steps {
                    Some(Ok::<VulkanManager, E>(states.last().manager))
                } else {
                    None
                }
            }
        }),
    decreases replies.len(),
{
    if replies.len() > 0 {
        let k = replies.len() - 1;
        let before = states.drop_last();
        assert forall|i: int| 0 <= i < k implies {
            &&& (#[trigger] before[i]).answered_by(replies.drop_last()[i])
            &&& before[i].leads_to(replies.drop_last()[i], before[i + 1])
        } by {
            assert(states[i].answered_by(replies[i]));
        }
        law_setup_as_a_whole(before, replies.drop_last());
        assert(states[k].answered_by(replies[k]));
        law_setup_takes_its_course(states[k], replies[k], states[k + 1]);
    }
}

} // verus!
