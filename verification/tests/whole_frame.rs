use std::collections::{BTreeMap, BTreeSet};
use std::rc::Rc;
use vulkan_frames::scene::{LightManager, Model, Scene};
use vulkan_frames::vulkan::command::{Command, DescriptorContents, Extent, Op, PushData};
use vulkan_frames::vulkan::lighting_pipeline::LightingPipeline;
use vulkan_frames::vulkan::manager::{Framebuffers, PerFrameUniformBuffer, Swapchain, VulkanManager};
use vulkan_frames::vulkan::pp_effect::PPEffect;
use vulkan_frames::vulkan::script::{DeviceCall, Script};

fn manager(frames: u8) -> VulkanManager {
    let numbered = |from: u64| (0..frames as u64).map(|i| from + i).collect::<Vec<u64>>();
    VulkanManager {
        graphics_queue: 9,
        swapchain: Swapchain {
            swapchain: 500,
            extent: Extent { width: 640, height: 480 },
            images: vec![501, 502],
            g0_image: 503,
            resolve_image: 504,
            g0_imageview: 505,
            g1_imageview: 506,
            resolve_imageview: 507,
            depth_imageview_depth_only: 508,
            framebuffers: Framebuffers { deferred: 601, pp_a: 602, pp_b: 603 },
        },
        renderpass: 10,
        commandbuffers: numbered(1000),
        uniform_buffer: PerFrameUniformBuffer { buffer: 11, size: 64, offsets: numbered(0) },
        desc_layout_frame_data: 12,
        pipeline_layout_gpass: 13,
        pipeline_layout_resolve_pass: 14,
        max_frames_in_flight: frames,
        current_frame_index: 0,
        image_acquire_semaphores: numbered(2000),
        render_finished_semaphores: numbered(3000),
        frame_resource_fences: numbered(4000),
        lighting_pipelines: vec![],
        sampler_linear: 15,
        desc_layout_pp: 16,
        pipe_layout_pp: 17,
        renderpass_pp: 18,
        pp_effects: vec![],
    }
}

fn scene() -> Scene {
    let models = (0..60u64)
        .map(|i| {
            let material = 1 + i * 7 % 9;
            let mesh = 1 + i * 5 % 4;
            Model {
                pipeline: 100 + material % 3,
                pipeline_layout: 200 + material,
                descriptor_set_layout: 300 + material,
                material,
                material_table: 1,
                mesh,
                vertex_buffer: 400 + mesh,
                index_buffer: 450 + mesh,
                submeshes: (0..(i % 3) as u32).map(|s| (s * 10, s + 1)).collect(),
            }
        })
        .collect();
    Scene { models, light_manager: LightManager { point_lights: 3, directional_lights: 2 } }
}

fn busy_manager() -> VulkanManager {
    let mut manager = manager(2);
    for i in 0..2 {
        manager.register_lighting_pipeline(Rc::new(LightingPipeline {
            point_pipeline: Some(700 + i),
            directional_pipeline: if i == 0 { Some(710) } else { None },
            ambient_pipeline: Some(720 + i),
        }));
        manager.register_pp_effect(Rc::new(PPEffect { pipeline: 730 + i }));
    }
    manager
}

#[test]
fn every_draw_sees_the_state_of_its_own_model() {
    let scene = scene();
    let recording = busy_manager().update_commandbuffer(0, &scene);
    let (mut pipeline, mut material, mut fetched) = (0, 0, 0);
    let (mut vertices, mut indices, mut transform) = (0, 0, 0);
    let mut drawn: BTreeMap<usize, Vec<(u32, u32)>> = BTreeMap::new();
    for op in &recording.ops {
        match *op {
            Op::FetchDescriptorSet(request) => {
                if let DescriptorContents::Material(index) = request.contents {
                    fetched = scene.models[index].material;
                }
            }
            Op::BindDescriptorSet { first_set: 1, .. } => material = fetched,
            Op::Command(Command::BindPipeline { pipeline: bound }) => {
                pipeline = bound;
                material = 0;
            }
            Op::Command(Command::BindVertexBuffer { buffer }) => vertices = buffer,
            Op::Command(Command::BindIndexBuffer { buffer }) => indices = buffer,
            Op::Command(Command::PushConstants { data: PushData::Transform(index), .. }) => {
                transform = index;
            }
            Op::Command(Command::DrawIndexed { index_count, first_index, .. }) => {
                let model = &scene.models[transform];
                assert_eq!(pipeline, model.pipeline);
                assert_eq!(material, model.material);
                assert_eq!(vertices, model.vertex_buffer);
                assert_eq!(indices, model.index_buffer);
                drawn.entry(transform).or_default().push((first_index, index_count));
            }
            _ => {}
        }
    }
    for (index, model) in scene.models.iter().enumerate() {
        assert_eq!(drawn.remove(&index).unwrap_or_default(), model.submeshes);
    }
    assert!(drawn.is_empty());
}

#[test]
fn each_pipeline_and_each_material_is_bound_once() {
    let scene = scene();
    let recording = busy_manager().update_commandbuffer(0, &scene);
    let mut bound: Vec<u64> = vec![];
    let mut fetched: Vec<(u64, u64)> = vec![];
    for op in &recording.ops {
        match *op {
            Op::Command(Command::NextSubpass) => break,
            Op::Command(Command::BindPipeline { pipeline }) => bound.push(pipeline),
            Op::FetchDescriptorSet(request) => {
                if let DescriptorContents::Material(index) = request.contents {
                    fetched.push((scene.models[index].pipeline, scene.models[index].material));
                }
            }
            _ => {}
        }
    }
    assert_eq!(bound, vec![100, 101, 102]);
    assert_eq!(
        fetched,
        vec![
            (100, 3),
            (100, 6),
            (100, 9),
            (101, 1),
            (101, 4),
            (101, 7),
            (102, 2),
            (102, 5),
            (102, 8),
        ]
    );
}

/// The draws of models with the state that each sees, by the names that `named` gives to models,
/// and what follows the change to the second subpass.
fn draws_and_rest(
    scene: &Scene,
    named: &Vec<usize>,
) -> (Vec<(u64, u64, u64, u64, usize, u32, u32)>, Vec<Op>) {
    let recording = busy_manager().update_commandbuffer(0, scene);
    let turn = recording
        .ops
        .iter()
        .position(|op| matches!(op, Op::Command(Command::NextSubpass)))
        .unwrap();
    let (mut pipeline, mut fetched, mut material) = (0, 0, 0);
    let (mut vertices, mut indices, mut transform) = (0, 0, 0);
    let mut draws = vec![];
    for op in &recording.ops[..turn] {
        match *op {
            Op::FetchDescriptorSet(request) => {
                if let DescriptorContents::Material(index) = request.contents {
                    fetched = scene.models[index].material;
                }
            }
            Op::BindDescriptorSet { first_set: 1, .. } => material = fetched,
            Op::Command(Command::BindPipeline { pipeline: bound }) => {
                pipeline = bound;
                material = 0;
            }
            Op::Command(Command::BindVertexBuffer { buffer }) => vertices = buffer,
            Op::Command(Command::BindIndexBuffer { buffer }) => indices = buffer,
            Op::Command(Command::PushConstants { data: PushData::Transform(index), .. }) => {
                transform = named[index];
            }
            Op::Command(Command::DrawIndexed { index_count, first_index, .. }) => {
                draws.push((
                    pipeline,
                    material,
                    vertices,
                    indices,
                    transform,
                    first_index,
                    index_count,
                ));
            }
            Op::Command(Command::Draw { .. }) => panic!("a quad in the geometry pass"),
            _ => {}
        }
    }
    draws.sort();
    (draws, recording.ops[turn..].to_vec())
}

#[test]
fn the_order_of_the_scene_makes_no_difference() {
    let given = scene();
    let positions: Vec<usize> = (0..60usize).map(|i| i * 17 % 60).collect();
    let mut models: Vec<Model> = vec![];
    for position in &positions {
        models.push(scene().models.remove(*position));
    }
    let rearranged = Scene { models, light_manager: given.light_manager };
    assert_ne!(rearranged, given);
    let (draws, rest) = draws_and_rest(&given, &(0..60usize).collect());
    let (other_draws, other_rest) = draws_and_rest(&rearranged, &positions);
    assert_eq!(draws.len(), 60);
    assert_eq!(draws, other_draws);
    assert_eq!(rest, other_rest);
}

#[test]
fn models_are_drawn_before_the_second_subpass_and_quads_after() {
    let recording = busy_manager().update_commandbuffer(0, &scene());
    let mut turns = 0;
    for op in &recording.ops {
        match *op {
            Op::Command(Command::NextSubpass) => turns += 1,
            Op::Command(Command::DrawIndexed { .. }) => assert_eq!(turns, 0),
            Op::Command(Command::Draw { .. }) => assert_eq!(turns, 1),
            _ => {}
        }
    }
    assert_eq!(turns, 1);
}

#[test]
fn render_passes_are_bracketed() {
    let recording = busy_manager().update_commandbuffer(1, &scene());
    let mut recording_now = false;
    let mut in_pass = false;
    let mut passes = 0;
    for op in &recording.ops {
        match *op {
            Op::BeginCommandBuffer => {
                assert!(!recording_now);
                recording_now = true;
            }
            Op::EndCommandBuffer => {
                assert!(recording_now && !in_pass);
                recording_now = false;
            }
            Op::Command(Command::BeginRenderPass { .. }) => {
                assert!(!in_pass);
                in_pass = true;
                passes += 1;
            }
            Op::Command(Command::EndRenderPass) => {
                assert!(in_pass);
                in_pass = false;
            }
            Op::Command(Command::Draw { .. }) | Op::Command(Command::DrawIndexed { .. }) => {
                assert!(in_pass);
            }
            Op::Command(Command::PipelineBarrier { .. })
            | Op::Command(Command::BlitImage { .. }) => assert!(!in_pass),
            _ => assert!(recording_now),
        }
    }
    assert!(!recording_now);
    assert_eq!(passes, 3);
}

#[test]
fn each_light_of_each_lighting_model_is_drawn() {
    let recording = busy_manager().update_commandbuffer(0, &scene());
    let quads = recording
        .ops
        .iter()
        .filter(|op| matches!(op, Op::Command(Command::Draw { .. })))
        .count();
    assert_eq!(quads, (3 + 2 + 1) + (3 + 1) + 2);
}

fn calls(script: Script) -> Vec<DeviceCall> {
    script.steps.iter().map(|step| step.call).collect()
}

#[test]
fn a_frame_can_follow_another_without_end() {
    let mut manager = manager(3);
    let mut ready: BTreeSet<u64> = manager.frame_resource_fences.iter().copied().collect();
    let mut signaled: BTreeSet<u64> = BTreeSet::new();
    for turn in 0..20 {
        let mut made = calls(manager.next_frame());
        made.extend(calls(manager.wait_for_fence()));
        made.extend(calls(manager.submit()));
        for call in made {
            match call {
                DeviceCall::AcquireNextImage { semaphore } => assert!(signaled.insert(semaphore)),
                DeviceCall::WaitForFence { fence, .. } => assert!(ready.contains(&fence)),
                DeviceCall::ResetFence { fence } => assert!(ready.remove(&fence)),
                DeviceCall::QueueSubmit {
                    wait_semaphore, signal_semaphore, fence, commandbuffer, ..
                } => {
                    assert!(signaled.remove(&wait_semaphore));
                    assert!(signaled.insert(signal_semaphore));
                    assert!(ready.insert(fence));
                    assert_eq!(commandbuffer, 1000 + (turn + 1) % 3);
                }
                _ => {}
            }
        }
        assert!(signaled.remove(&manager.present(0).wait_semaphore));
        assert!(signaled.is_empty());
        assert_eq!(ready.len(), 3);
    }
}

#[test]
fn frames_in_flight_share_no_objects() {
    let mut manager = manager(4);
    let mut fences = BTreeSet::new();
    let mut semaphores = BTreeSet::new();
    for _ in 0..4 {
        manager.next_frame();
        match calls(manager.submit())[0] {
            DeviceCall::QueueSubmit { wait_semaphore, signal_semaphore, fence, .. } => {
                assert!(fences.insert(fence));
                assert!(semaphores.insert(wait_semaphore));
                assert!(semaphores.insert(signal_semaphore));
            }
            _ => panic!("not a submission"),
        }
    }
    assert_eq!(manager.get_current_frame_index(), 0);
}
