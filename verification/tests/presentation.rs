use std::rc::Rc;
use vulkan_frames::vulkan::command::{Extent, PipelineStage};
use vulkan_frames::vulkan::lighting_pipeline::LightingPipeline;
use vulkan_frames::vulkan::manager::{Framebuffers, PerFrameUniformBuffer, Swapchain, VulkanManager};
use vulkan_frames::vulkan::pp_effect::PPEffect;
use vulkan_frames::vulkan::presentation::{
    PresentRequest, Presentation, Recreation, RecreationReply,
};
use vulkan_frames::vulkan::script::{CallReply, DeviceCall, Failure, Script};

fn swapchain(number: u64) -> Swapchain {
    Swapchain {
        swapchain: number,
        extent: Extent { width: 640, height: 480 },
        images: vec![number + 1, number + 2],
        g0_image: 503,
        resolve_image: 504,
        g0_imageview: 505,
        g1_imageview: 506,
        resolve_imageview: 507,
        depth_imageview_depth_only: 508,
        framebuffers: Framebuffers { deferred: 1, pp_a: 2, pp_b: 3 },
    }
}

fn manager() -> VulkanManager {
    VulkanManager {
        graphics_queue: 9,
        swapchain: swapchain(500),
        renderpass: 10,
        commandbuffers: vec![20, 21, 22],
        uniform_buffer: PerFrameUniformBuffer { buffer: 11, size: 64, offsets: vec![0, 64, 128] },
        desc_layout_frame_data: 12,
        pipeline_layout_gpass: 13,
        pipeline_layout_resolve_pass: 14,
        max_frames_in_flight: 3,
        current_frame_index: 0,
        image_acquire_semaphores: vec![30, 31, 32],
        render_finished_semaphores: vec![40, 41, 42],
        frame_resource_fences: vec![50, 51, 52],
        lighting_pipelines: vec![],
        sampler_linear: 15,
        desc_layout_pp: 16,
        pipe_layout_pp: 17,
        renderpass_pp: 18,
        pp_effects: vec![],
    }
}

fn calls(script: Script) -> Vec<DeviceCall> {
    let mut script = script;
    let mut calls = vec![];
    while let Some(call) = script.next() {
        calls.push(call);
        script.reply(match call {
            DeviceCall::AcquireNextImage { .. } => CallReply::Image(1),
            _ => CallReply::Done,
        });
    }
    assert_eq!(script.failure, None);
    calls
}

#[test]
fn frames_take_turns() {
    let mut manager = manager();
    let mut seen = vec![];
    for _ in 0..7 {
        let script = manager.next_frame();
        let frame = manager.get_current_frame_index();
        assert_eq!(
            calls(script),
            vec![
                DeviceCall::NextDescriptorFrame,
                DeviceCall::AcquireNextImage { semaphore: 30 + frame as u64 },
            ]
        );
        seen.push(frame);
    }
    assert_eq!(seen, vec![1, 2, 0, 1, 2, 0, 1]);
}

#[test]
fn starting_a_frame_gives_the_acquired_image() {
    let mut manager = manager();
    for image in [0, 7, u32::MAX] {
        let mut script = manager.next_frame();
        assert_eq!(script.outcome(), None);
        script.reply(CallReply::Done);
        assert_eq!(script.outcome(), None);
        script.reply(CallReply::Image(image));
        assert_eq!(script.next(), None);
        assert_eq!(script.outcome(), Some(Ok(Some(image))));
    }
    let mut script = manager.wait_idle();
    script.reply(CallReply::Done);
    assert_eq!(script.outcome(), Some(Ok(None)));
}

#[test]
fn the_last_of_many_frames_is_followed_by_the_first() {
    let mut manager = manager();
    manager.max_frames_in_flight = 255;
    manager.current_frame_index = 254;
    manager.commandbuffers = vec![0; 255];
    manager.uniform_buffer.offsets = vec![0; 255];
    manager.image_acquire_semaphores = vec![0; 255];
    manager.render_finished_semaphores = vec![0; 255];
    manager.frame_resource_fences = vec![0; 255];
    manager.next_frame();
    assert_eq!(manager.get_current_frame_index(), 0);
}

#[test]
fn a_frame_uses_its_own_objects() {
    let mut manager = manager();
    manager.next_frame();
    assert_eq!(
        calls(manager.wait_for_fence()),
        vec![
            DeviceCall::WaitForFence { fence: 51, wait_all: true, timeout: u64::MAX },
            DeviceCall::ResetFence { fence: 51 },
        ]
    );
    assert_eq!(
        calls(manager.submit()),
        vec![DeviceCall::QueueSubmit {
            queue: 9,
            wait_semaphore: 31,
            wait_stage: PipelineStage::TopOfPipe,
            commandbuffer: 21,
            signal_semaphore: 41,
            fence: 51,
        }]
    );
    assert_eq!(
        manager.present(1),
        PresentRequest { queue: 9, wait_semaphore: 41, swapchain: 500, image_index: 1 }
    );
}

#[test]
fn a_failure_to_wait_is_fatal() {
    let manager = manager();
    let mut script = manager.wait_for_fence();
    script.reply(CallReply::Failed(-4));
    assert_eq!(script.failure, Some((Failure::FenceWaiting, -4)));
    assert_eq!(script.next(), None);
    let mut script = manager.wait_for_fence();
    script.reply(CallReply::Done);
    script.reply(CallReply::Failed(-2));
    assert_eq!(script.failure, Some((Failure::FenceReset, -2)));
    assert_eq!(script.outcome(), Some(Err((Failure::FenceReset, -2))));
    let mut script = manager.submit();
    script.reply(CallReply::Failed(-4));
    assert_eq!(script.failure, Some((Failure::QueueSubmission, -4)));
    let mut script = manager.wait_idle();
    assert_eq!(script.next(), Some(DeviceCall::DeviceWaitIdle));
    script.reply(CallReply::Failed(-4));
    assert_eq!(script.failure, Some((Failure::WaitIdle, -4)));
}

#[test]
fn failures_have_their_messages() {
    assert_eq!(Failure::FenceWaiting.message(), "fence-waiting");
    assert_eq!(Failure::FenceReset.message(), "resetting fences");
    assert_eq!(Failure::QueueSubmission.message(), "queue submission");
    assert_eq!(Failure::WaitIdle.message(), "device_wait_idle() failed");
    assert_eq!(Failure::WaitBeforeRecreation.message(), "something went wrong while waiting");
    assert_eq!(Failure::WaitBeforeTeardown.message(), "something wrong while waiting");
    assert_eq!(Failure::SwapchainRecreation.message(), "swapchain recreation");
    assert_eq!(Failure::Presentation.message(), "unhandled queue presentation error");
}

#[test]
fn an_outdated_swapchain_is_replaced() {
    let mut manager = manager();
    assert_eq!(manager.presented(Ok(false)), Presentation::<u32>::Finished);
    assert_eq!(manager.presented(Ok(true)), Presentation::<u32>::Finished);
    let code = ash::vk::Result::ERROR_OUT_OF_DATE_KHR.as_raw();
    assert_eq!(code, -1_000_001_004);
    assert_eq!(manager.presented(Err(code)), Presentation::Recreate(Recreation::<u32>::WaitIdle));

    let next =
        manager.present_recreating(Recreation::<u32>::WaitIdle, RecreationReply::Done);
    assert_eq!(next, Presentation::Recreate(Recreation::Cleanup));
    let next = manager.present_recreating(Recreation::<u32>::Cleanup, RecreationReply::Done);
    assert_eq!(next, Presentation::Recreate(Recreation::Init));
    assert_eq!(manager.swapchain.swapchain, 500);
    let next = manager
        .present_recreating(Recreation::<u32>::Init, RecreationReply::Swapchain(swapchain(900)));
    let framebuffers_due =
        || Recreation::<u32>::CreateFramebuffers { renderpass: 10, renderpass_pp: 18 };
    assert_eq!(next, Presentation::Recreate(framebuffers_due()));
    assert_eq!(manager.swapchain.swapchain, 900);
    let framebuffers = Framebuffers { deferred: 7, pp_a: 8, pp_b: 9 };
    let next = manager
        .present_recreating(framebuffers_due(), RecreationReply::Framebuffers(framebuffers));
    assert_eq!(next, Presentation::Finished);
    assert_eq!(manager.swapchain.framebuffers, framebuffers);
    assert_eq!(manager.swapchain.images, vec![901, 902]);
    assert_eq!(manager.get_current_frame_index(), 0);
}

#[test]
fn other_presentation_errors_are_fatal() {
    let manager = manager();
    for code in [0, -4, ash::vk::Result::ERROR_SURFACE_LOST_KHR.as_raw()] {
        assert_eq!(
            manager.presented(Err(code)),
            Presentation::<u32>::Panicked(Failure::Presentation, None)
        );
    }
}

#[test]
fn a_failed_replacement_is_an_error_of_its_own() {
    let mut manager = manager();
    assert_eq!(
        manager.recreate_swapchain(Recreation::WaitIdle, RecreationReply::Failed("idle")),
        Recreation::Panicked(Failure::WaitBeforeRecreation, "idle")
    );
    assert_eq!(
        manager.recreate_swapchain(Recreation::Init, RecreationReply::Failed("init")),
        Recreation::Failed("init")
    );
    assert_eq!(manager.swapchain, swapchain(500));
    let stage = Recreation::CreateFramebuffers { renderpass: 10, renderpass_pp: 18 };
    assert_eq!(
        manager.recreate_swapchain(stage, RecreationReply::Failed("framebuffers")),
        Recreation::Failed("framebuffers")
    );
    assert_eq!(
        manager.present_recreating(Recreation::Init, RecreationReply::Failed("init")),
        Presentation::Panicked(Failure::SwapchainRecreation, Some("init"))
    );
    assert_eq!(
        manager.present_recreating(Recreation::WaitIdle, RecreationReply::Failed("idle")),
        Presentation::Panicked(Failure::WaitBeforeRecreation, Some("idle"))
    );
}

#[test]
fn registering_appends() {
    let mut manager = manager();
    for pipeline in [1, 2] {
        manager.register_pp_effect(Rc::new(PPEffect { pipeline }));
        manager.register_lighting_pipeline(Rc::new(LightingPipeline {
            point_pipeline: Some(pipeline),
            directional_pipeline: None,
            ambient_pipeline: None,
        }));
    }
    let effects: Vec<u64> = manager.pp_effects.iter().map(|effect| effect.pipeline).collect();
    assert_eq!(effects, vec![1, 2]);
    assert_eq!(manager.lighting_pipelines[1].point_pipeline, Some(2));
    assert_eq!(manager.lighting_pipelines.len(), 2);
}
