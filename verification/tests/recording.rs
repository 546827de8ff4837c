use std::rc::Rc;
use vulkan_frames::scene::{LightManager, Model, Scene};
use vulkan_frames::vulkan::command::{
    Access, Barriers, Clear, Command, DescriptorContents, Extent, Filter, ImageBarrier,
    ImageLayout, InputAttachment, Offset, Op, PipelineStage, PushData, Region, SetRef, SetRequest, ShaderStages,
    Viewport,
};
use vulkan_frames::vulkan::lighting_pipeline::LightingPipeline;
use vulkan_frames::vulkan::manager::{Framebuffers, PerFrameUniformBuffer, Swapchain, VulkanManager};
use vulkan_frames::vulkan::pp_effect::PPEffect;
use vulkan_frames::vulkan::recording::{Recording, Request};

const EXTENT: Extent = Extent { width: 640, height: 480 };

const VIEWPORT: Viewport =
    Viewport { x: 0, y: 480, width: 640, negated_height: 480, min_depth: 0, max_depth: 1 };

fn manager() -> VulkanManager {
    VulkanManager {
        graphics_queue: 9,
        swapchain: Swapchain {
            swapchain: 500,
            extent: EXTENT,
            images: vec![501, 502],
            g0_image: 503,
            resolve_image: 504,
            g0_imageview: 505,
            g1_imageview: 506,
            resolve_imageview: 507,
            depth_imageview_depth_only: 508,
            framebuffers: Framebuffers { deferred: 601, pp_a: 602, pp_b: 603 },
        },
        renderpass: 10,
        commandbuffers: vec![20, 21],
        uniform_buffer: PerFrameUniformBuffer { buffer: 11, size: 64, offsets: vec![0, 256] },
        desc_layout_frame_data: 12,
        pipeline_layout_gpass: 13,
        pipeline_layout_resolve_pass: 14,
        max_frames_in_flight: 2,
        current_frame_index: 1,
        image_acquire_semaphores: vec![30, 31],
        render_finished_semaphores: vec![40, 41],
        frame_resource_fences: vec![50, 51],
        lighting_pipelines: vec![],
        sampler_linear: 15,
        desc_layout_pp: 16,
        pipe_layout_pp: 17,
        renderpass_pp: 18,
        pp_effects: vec![],
    }
}

fn model(pipeline: u64, material: u64, mesh: u64, submeshes: Vec<(u32, u32)>) -> Model {
    Model {
        pipeline,
        pipeline_layout: pipeline + 1,
        descriptor_set_layout: pipeline + 2,
        material,
        material_table: 1,
        mesh,
        vertex_buffer: mesh + 1,
        index_buffer: mesh + 2,
        submeshes,
    }
}

fn bind_pipeline(pipeline: u64) -> Op {
    Op::Command(Command::BindPipeline { pipeline })
}

fn viewport() -> Op {
    Op::Command(Command::SetViewport(VIEWPORT))
}

fn fetch(layout: u64, contents: DescriptorContents) -> Op {
    Op::FetchDescriptorSet(SetRequest { layout, contents })
}

fn bind(layout: u64, first_set: u32) -> Op {
    Op::BindDescriptorSet { layout, first_set, set: SetRef::Latest, dynamic_offset: None }
}

fn push(layout: u64, vertex: bool, data: PushData) -> Op {
    Op::Command(Command::PushConstants {
        layout,
        stages: ShaderStages { vertex, fragment: !vertex },
        offset: 0,
        data,
    })
}

fn draw_indexed(first_index: u32, index_count: u32) -> Op {
    Op::Command(Command::DrawIndexed {
        index_count,
        instance_count: 1,
        first_index,
        vertex_offset: 0,
        first_instance: 0,
    })
}

fn vertices(buffer: u64) -> Op {
    Op::Command(Command::BindVertexBuffer { buffer })
}

fn indices(buffer: u64) -> Op {
    Op::Command(Command::BindIndexBuffer { buffer })
}

fn quad() -> Op {
    Op::Command(Command::Draw {
        vertex_count: 6,
        instance_count: 1,
        first_vertex: 0,
        first_instance: 0,
    })
}

#[test]
fn what_models_share_is_bound_once() {
    let models = vec![
        model(100, 1000, 2000, vec![(0, 3), (3, 6)]),
        model(100, 1000, 2000, vec![(0, 9)]),
        model(100, 1001, 2000, vec![]),
        model(200, 1001, 2010, vec![(5, 7)]),
    ];
    let ops = manager().render_gpass(&models, &vec![0, 1, 2, 3]);
    assert_eq!(
        ops,
        vec![
            bind_pipeline(100),
            viewport(),
            fetch(102, DescriptorContents::Material(0)),
            bind(101, 1),
            vertices(2001),
            indices(2002),
            push(101, true, PushData::Transform(0)),
            draw_indexed(0, 3),
            draw_indexed(3, 6),
            push(101, true, PushData::Transform(1)),
            draw_indexed(0, 9),
            fetch(102, DescriptorContents::Material(2)),
            bind(101, 1),
            push(101, true, PushData::Transform(2)),
            bind_pipeline(200),
            viewport(),
            fetch(202, DescriptorContents::Material(3)),
            bind(201, 1),
            vertices(2011),
            indices(2012),
            push(201, true, PushData::Transform(3)),
            draw_indexed(5, 7),
        ]
    );
}

#[test]
fn the_null_pipeline_counts_as_bound_at_first() {
    let ops = manager().render_gpass(&vec![model(0, 1000, 2000, vec![])], &vec![0]);
    assert_eq!(ops[0], fetch(2, DescriptorContents::Material(0)));
    assert!(!ops.contains(&bind_pipeline(0)));
}

#[test]
fn models_are_drawn_in_the_given_order() {
    let models = vec![model(100, 1000, 2000, vec![]), model(100, 1000, 2000, vec![])];
    let ops = manager().render_gpass(&models, &vec![1, 0]);
    assert_eq!(ops[2], fetch(102, DescriptorContents::Material(1)));
    assert_eq!(ops[6], push(101, true, PushData::Transform(1)));
    assert_eq!(ops[7], push(101, true, PushData::Transform(0)));
    assert_eq!(ops.len(), 8);
}

#[test]
fn each_light_gets_a_quad() {
    let mut manager = manager();
    manager.register_lighting_pipeline(Rc::new(LightingPipeline {
        point_pipeline: Some(1),
        directional_pipeline: Some(2),
        ambient_pipeline: Some(3),
    }));
    manager.register_lighting_pipeline(Rc::new(LightingPipeline {
        point_pipeline: None,
        directional_pipeline: None,
        ambient_pipeline: Some(4),
    }));
    let lights = LightManager { point_lights: 2, directional_lights: 1 };
    assert_eq!(
        manager.render_resolve_pass(&lights),
        vec![
            bind_pipeline(1),
            viewport(),
            push(14, false, PushData::PointLight(0)),
            quad(),
            push(14, false, PushData::PointLight(1)),
            quad(),
            bind_pipeline(2),
            viewport(),
            push(14, false, PushData::DirectionalLight(0)),
            quad(),
            bind_pipeline(3),
            viewport(),
            quad(),
            bind_pipeline(4),
            viewport(),
            quad(),
        ]
    );
}

fn effect_ops(pipeline: u64, framebuffer: u64, image: u64) -> Vec<Op> {
    vec![
        Op::Command(Command::BeginRenderPass {
            render_pass: 18,
            framebuffer,
            extent: EXTENT,
            clear: Clear::Nothing,
        }),
        bind_pipeline(pipeline),
        viewport(),
        fetch(
            16,
            DescriptorContents::ImageSampler {
                image,
                layout: ImageLayout::ShaderReadOnlyOptimal,
                sampler: 0,
            },
        ),
        bind(17, 0),
        quad(),
        Op::Command(Command::EndRenderPass),
    ]
}

fn copy_ops(picture: u64, image: u64) -> Vec<Op> {
    let whole = Region {
        start: Offset { x: 0, y: 0, z: 0 },
        end: Offset { x: 640, y: 480, z: 1 },
    };
    vec![
        Op::Command(Command::PipelineBarrier {
            src_stage: PipelineStage::ColorAttachmentOutput,
            dst_stage: PipelineStage::Transfer,
            barriers: Barriers::Two(
                ImageBarrier {
                    image,
                    src_access: Access::Nothing,
                    dst_access: Access::TransferWrite,
                    old_layout: ImageLayout::Undefined,
                    new_layout: ImageLayout::TransferDstOptimal,
                },
                ImageBarrier {
                    image: picture,
                    src_access: Access::ColorAttachmentWrite,
                    dst_access: Access::TransferRead,
                    old_layout: ImageLayout::ShaderReadOnlyOptimal,
                    new_layout: ImageLayout::TransferSrcOptimal,
                },
            ),
        }),
        Op::Command(Command::BlitImage {
            src: picture,
            src_layout: ImageLayout::TransferSrcOptimal,
            src_region: whole,
            dst: image,
            dst_layout: ImageLayout::TransferDstOptimal,
            dst_region: whole,
            filter: Filter::Linear,
        }),
        Op::Command(Command::PipelineBarrier {
            src_stage: PipelineStage::Transfer,
            dst_stage: PipelineStage::Transfer,
            barriers: Barriers::One(ImageBarrier {
                image,
                src_access: Access::TransferWrite,
                dst_access: Access::TransferRead,
                old_layout: ImageLayout::TransferDstOptimal,
                new_layout: ImageLayout::PresentSrc,
            }),
        }),
    ]
}

#[test]
fn without_effects_the_lit_scene_is_copied() {
    assert_eq!(manager().render_pp(1), copy_ops(504, 502));
}

#[test]
fn one_effect_leaves_the_picture_in_the_other_image() {
    let mut manager = manager();
    manager.register_pp_effect(Rc::new(PPEffect { pipeline: 71 }));
    let mut expected = effect_ops(71, 602, 507);
    expected.extend(copy_ops(503, 501));
    assert_eq!(manager.render_pp(0), expected);
}

#[test]
fn effects_take_turns_between_two_images() {
    let mut manager = manager();
    for pipeline in [71, 72, 73] {
        manager.register_pp_effect(Rc::new(PPEffect { pipeline }));
    }
    let mut expected = effect_ops(71, 602, 507);
    expected.extend(effect_ops(72, 603, 505));
    expected.extend(effect_ops(73, 602, 507));
    expected.extend(copy_ops(503, 501));
    assert_eq!(manager.render_pp(0), expected);
    manager.register_pp_effect(Rc::new(PPEffect { pipeline: 74 }));
    let ops = manager.render_pp(0);
    assert_eq!(ops[28..], copy_ops(504, 501)[..]);
}

#[test]
fn an_extent_beyond_the_signed_range_wraps() {
    let mut manager = manager();
    manager.swapchain.extent = Extent { width: u32::MAX, height: 0x8000_0000 };
    let ops = manager.render_pp(0);
    match ops[1] {
        Op::Command(Command::BlitImage { src_region, .. }) => {
            assert_eq!(src_region.end, Offset { x: -1, y: i32::MIN, z: 1 });
        }
        _ => panic!("not a copy"),
    }
}

fn scene() -> Scene {
    Scene {
        models: vec![model(200, 1001, 2010, vec![(5, 7)]), model(100, 1000, 2000, vec![(0, 3)])],
        light_manager: LightManager { point_lights: 1, directional_lights: 0 },
    }
}

fn frame_data() -> SetRequest {
    SetRequest {
        layout: 12,
        contents: DescriptorContents::FrameData {
            buffer: 11,
            offset: 0,
            size: 64,
            albedo_roughness: InputAttachment {
                image: 505,
                layout: ImageLayout::ShaderReadOnlyOptimal,
            },
            normal_metallic: InputAttachment {
                image: 506,
                layout: ImageLayout::ShaderReadOnlyOptimal,
            },
            depth: InputAttachment {
                image: 508,
                layout: ImageLayout::DepthStencilReadOnlyOptimal,
            },
        },
    }
}

#[test]
fn a_frame_is_recorded_in_order() {
    let mut manager = manager();
    manager.register_lighting_pipeline(Rc::new(LightingPipeline {
        point_pipeline: Some(1),
        directional_pipeline: None,
        ambient_pipeline: None,
    }));
    let scene = scene();
    let frame_bind = |layout: u64| Op::BindDescriptorSet {
        layout,
        first_set: 0,
        set: SetRef::FrameData,
        dynamic_offset: Some(256),
    };
    let mut expected = vec![
        Op::BeginCommandBuffer,
        Op::FetchDescriptorSet(frame_data()),
        Op::Command(Command::BeginRenderPass {
            render_pass: 10,
            framebuffer: 601,
            extent: EXTENT,
            clear: Clear::ColorThenDepth {
                red_tenths: 2,
                green_tenths: 2,
                blue_tenths: 2,
                alpha_tenths: 0,
                depth: 1,
                stencil: 0,
            },
        }),
        frame_bind(13),
    ];
    expected.extend(manager.render_gpass(&scene.models, &vec![1, 0]));
    expected.push(Op::Command(Command::NextSubpass));
    expected.push(frame_bind(14));
    expected.extend(manager.render_resolve_pass(&scene.light_manager));
    expected.push(Op::Command(Command::EndRenderPass));
    expected.extend(manager.render_pp(1));
    expected.push(Op::EndCommandBuffer);

    let recording = manager.update_commandbuffer(1, &scene);
    assert_eq!(recording.commandbuffer, 21);
    assert_eq!(recording.ops, expected);
    assert_eq!(recording.done, 0);
    assert_eq!(recording.outcome(), None);
}

#[test]
fn a_uniform_offset_beyond_32_bits_wraps() {
    let mut manager = manager();
    manager.uniform_buffer.offsets[1] = 0x1_0000_0040;
    let recording = manager.update_commandbuffer(0, &scene());
    match recording.ops[3] {
        Op::BindDescriptorSet { dynamic_offset, .. } => assert_eq!(dynamic_offset, Some(0x40)),
        _ => panic!("not a bind"),
    }
}

/// Carries a recording out, with descriptor sets numbered from 9000 and an error at one step.
fn carry_out(recording: &mut Recording, failing: Option<usize>) -> Vec<Request> {
    let mut requests = vec![];
    let mut sets = 0;
    while let Some(request) = recording.next() {
        let step = requests.len();
        requests.push(request);
        if failing == Some(step) {
            recording.reply(Err(-2));
            continue;
        }
        match request {
            Request::DescriptorSet(_) => {
                recording.reply(Ok(9000 + sets));
                sets += 1;
            }
            _ => recording.reply(Ok(0)),
        }
    }
    requests
}

#[test]
fn a_recording_binds_the_sets_that_were_fetched() {
    let mut manager = manager();
    manager.register_pp_effect(Rc::new(PPEffect { pipeline: 71 }));
    let mut recording = manager.update_commandbuffer(0, &scene());
    let requests = carry_out(&mut recording, None);
    assert_eq!(requests.len(), recording.ops.len());
    assert_eq!(recording.outcome(), Some(Ok(())));
    let bound: Vec<(u64, u64)> = requests
        .iter()
        .filter_map(|request| match request {
            Request::BindDescriptorSet { layout, set, .. } => Some((*layout, *set)),
            _ => None,
        })
        .collect();
    assert_eq!(bound, vec![(13, 9000), (101, 9001), (201, 9002), (14, 9000), (17, 9003)]);
    assert_eq!(requests[0], Request::BeginCommandBuffer);
    assert_eq!(requests[1], Request::DescriptorSet(frame_data()));
    assert_eq!(requests[requests.len() - 1], Request::EndCommandBuffer);
}

#[test]
fn a_recording_stops_at_the_first_error() {
    let manager = manager();
    let last = manager.update_commandbuffer(0, &scene()).ops.len() - 1;
    for failing in [0, 1, 6, last] {
        let mut recording = manager.update_commandbuffer(0, &scene());
        let requests = carry_out(&mut recording, Some(failing));
        assert_eq!(requests.len(), failing + 1);
        assert_eq!(recording.outcome(), Some(Err(-2)));
        assert_eq!(recording.next(), None);
    }
}

#[test]
fn an_empty_scene_is_still_cleared_and_copied() {
    let empty = Scene {
        models: vec![],
        light_manager: LightManager { point_lights: 0, directional_lights: 0 },
    };
    let recording = manager().update_commandbuffer(0, &empty);
    assert_eq!(recording.ops.len(), 4 + 2 + 1 + 3 + 1);
}
