//! The vocabulary of a recorded frame: commands and what surrounds them.

use vstd::prelude::*;

verus! {

/// The size of an image in pixels.
#[derive(Clone, Copy, Debug, PartialEq, Eq)]
pub struct Extent {
    pub width: u32,
    pub height: u32,
}

/// Where rendering goes within a framebuffer, in whole pixels. The vertical axis points up: the
/// viewport starts at `y` and its height is `-negated_height`.
#[derive(Clone, Copy, Debug, PartialEq, Eq)]
pub struct Viewport {
    pub x: u32,
    pub y: u32,
    pub width: u32,
    pub negated_height: u32,
    pub min_depth: u32,
    pub max_depth: u32,
}

/// The viewport that covers an image of the given size, upside down.
pub open spec fn flipped_viewport(extent: Extent) -> Viewport {
    Viewport {
        x: 0,
        y: extent.height,
        width: extent.width,
        negated_height: extent.height,
        min_depth: 0,
        max_depth: 1,
    }
}

impl Viewport {
    /// The viewport that covers an image of the given size, upside down.
    pub fn flipped(extent: Extent) -> (viewport: Viewport)
        ensures
            viewport == flipped_viewport(extent),
    {
        Viewport {
            x: 0,
            y: extent.height,
            width: extent.width,
            negated_height: extent.height,
            min_depth: 0,
            max_depth: 1,
        }
    }
}

/// How the pixels of an image are arranged in memory.
#[derive(Clone, Copy, Debug, PartialEq, Eq)]
pub enum ImageLayout {
    Undefined,
    ColorAttachmentOptimal,
    DepthStencilReadOnlyOptimal,
    ShaderReadOnlyOptimal,
    TransferSrcOptimal,
    TransferDstOptimal,
    PresentSrc,
}

/// The stages of the graphics pipeline that work is ordered by.
#[derive(Clone, Copy, Debug, PartialEq, Eq)]
pub enum PipelineStage {
    TopOfPipe,
    FragmentShader,
    ColorAttachmentOutput,
    Transfer,
}

/// How memory is accessed.
#[derive(Clone, Copy, Debug, PartialEq, Eq)]
pub enum Access {
    Nothing,
    ShaderRead,
    ColorAttachmentWrite,
    TransferRead,
    TransferWrite,
}

/// A set of shader stages.
#[derive(Clone, Copy, Debug, PartialEq, Eq)]
pub struct ShaderStages {
    pub vertex: bool,
    pub fragment: bool,
}

/// A transition of a whole color image (one mip level, one layer) between two layouts.
#[derive(Clone, Copy, Debug, PartialEq, Eq)]
pub struct ImageBarrier {
    pub image: u64,
    pub src_access: Access,
    pub dst_access: Access,
    pub old_layout: ImageLayout,
    pub new_layout: ImageLayout,
}

/// The image transitions of one pipeline barrier, in order.
#[derive(Clone, Copy, Debug, PartialEq, Eq)]
pub enum Barriers {
    One(ImageBarrier),
    Two(ImageBarrier, ImageBarrier),
}

/// A corner of a region of an image.
#[derive(Clone, Copy, Debug, PartialEq, Eq)]
pub struct Offset {
    pub x: i32,
    pub y: i32,
    pub z: i32,
}

/// A box within an image, between two opposite corners.
#[derive(Clone, Copy, Debug, PartialEq, Eq)]
pub struct Region {
    pub start: Offset,
    pub end: Offset,
}

/// What the attachments of a render pass are set to when it begins.
#[derive(Clone, Copy, Debug, PartialEq, Eq)]
pub enum Clear {
    /// Nothing is cleared.
    Nothing,
    /// The first attachment gets a color, given in tenths, the second a depth and a stencil value.
    ColorThenDepth {
        red_tenths: u32,
        green_tenths: u32,
        blue_tenths: u32,
        alpha_tenths: u32,
        depth: u32,
        stencil: u32,
    },
}

/// The block of bytes that a push constant command hands to the shaders.
#[derive(Clone, Copy, Debug, PartialEq, Eq)]
pub enum PushData {
    /// The transform of the model at this position of the scene.
    Transform(usize),
    /// The point light at this position.
    PointLight(usize),
    /// The directional light at this position.
    DirectionalLight(usize),
}

/// What a descriptor set holds.
#[derive(Clone, Copy, Debug, PartialEq, Eq)]
pub enum DescriptorContents {
    /// The data of the material of the model at this position of the scene.
    Material(usize),
    /// The data that every shader of the frame sees: first a uniform buffer with a dynamic
    /// offset, then three input attachments, each with the layout it is read in.
    FrameData {
        buffer: u64,
        offset: u64,
        size: u64,
        albedo_roughness: InputAttachment,
        normal_metallic: InputAttachment,
        depth: InputAttachment,
    },
    /// One image to sample, with its layout and a sampler.
    ImageSampler { image: u64, layout: ImageLayout, sampler: u64 },
}

/// An image that a subpass reads at the pixel it draws.
#[derive(Clone, Copy, Debug, PartialEq, Eq)]
pub struct InputAttachment {
    pub image: u64,
    pub layout: ImageLayout,
}

/// A descriptor set that is asked for: its layout and what it holds.
#[derive(Clone, Copy, Debug, PartialEq, Eq)]
pub struct SetRequest {
    pub layout: u64,
    pub contents: DescriptorContents,
}

/// Which of the descriptor sets fetched so far in a recording is meant.
#[derive(Clone, Copy, Debug, PartialEq, Eq)]
pub enum SetRef {
    /// The first one, which holds the data of the frame.
    FrameData,
    /// The one fetched last.
    Latest,
}

/// How neighbouring pixels are blended.
#[derive(Clone, Copy, Debug, PartialEq, Eq)]
pub enum Filter {
    Nearest,
    Linear,
}

/// A command of a command buffer that needs nothing but its own arguments. All binding is to the
/// graphics bind point, render passes take their commands inline, and indices have 32 bits.
#[derive(Clone, Copy, Debug, PartialEq, Eq)]
pub enum Command {
    /// Begins a render pass on the whole of a framebuffer of the given size.
    BeginRenderPass { render_pass: u64, framebuffer: u64, extent: Extent, clear: Clear },
    NextSubpass,
    EndRenderPass,
    BindPipeline { pipeline: u64 },
    SetViewport(Viewport),
    /// Binds one vertex buffer, from its start, to binding zero.
    BindVertexBuffer { buffer: u64 },
    /// Binds an index buffer from its start.
    BindIndexBuffer { buffer: u64 },
    PushConstants { layout: u64, stages: ShaderStages, offset: u32, data: PushData },
    Draw { vertex_count: u32, instance_count: u32, first_vertex: u32, first_instance: u32 },
    DrawIndexed {
        index_count: u32,
        instance_count: u32,
        first_index: u32,
        vertex_offset: i32,
        first_instance: u32,
    },
    PipelineBarrier { src_stage: PipelineStage, dst_stage: PipelineStage, barriers: Barriers },
    /// Copies a region of one color image to one of another.
    BlitImage {
        src: u64,
        src_layout: ImageLayout,
        src_region: Region,
        dst: u64,
        dst_layout: ImageLayout,
        dst_region: Region,
        filter: Filter,
    },
}

/// One step of recording a command buffer.
#[derive(Clone, Copy, Debug, PartialEq, Eq)]
pub enum Op {
    /// Starts recording. May fail.
    BeginCommandBuffer,
    /// Ends recording. May fail.
    EndCommandBuffer,
    /// Asks the descriptor manager for a set. May fail.
    FetchDescriptorSet(SetRequest),
    /// Binds one fetched set, with the dynamic offset that it needs, if any.
    BindDescriptorSet { layout: u64, first_set: u32, set: SetRef, dynamic_offset: Option<u32> },
    /// Records a command.
    Command(Command),
}

impl Op {
    /// Whether the step can fail: recording may not start or end, and a set may not be had.
    /// Recording a command cannot fail.
    pub open spec fn fallible(self) -> bool {
        match self {
            Op::BeginCommandBuffer => true,
            Op::EndCommandBuffer => true,
            Op::FetchDescriptorSet(_) => true,
            Op::BindDescriptorSet { .. } => false,
            Op::Command(_) => false,
        }
    }
}

} // verus!
