use vulkan_frames::engine::Info;
use vulkan_frames::vulkan::command::{
    Access, Extent, Filter, ImageLayout, PipelineStage, ShaderStages,
};
use vulkan_frames::vulkan::instance::Validation;
use vulkan_frames::vulkan::manager::{Framebuffers, PerFrameUniformBuffer, Swapchain, VulkanManager};
use vulkan_frames::vulkan::script::{CallReply, DeviceCall, Failure, Step};
use vulkan_frames::vulkan::setup::{
    AddressMode, AttachmentInfo, AttachmentReference, DependencyInfo, DescriptorType, Format, LayoutBinding, LoadOp, Lod, PipelineLayoutInfo, PushConstantRange, RenderPassInfo,
    SamplerInfo, SetLayoutInfo, Setup, SetupCall, SetupReply, SetupStage, StoreOp, SubpassEnd,
};

fn info() -> Info {
    Info { app_name: "demo".to_string() }
}

fn swapchain() -> Swapchain {
    Swapchain {
        swapchain: 500,
        extent: Extent { width: 640, height: 480 },
        images: vec![501, 502],
        g0_image: 503,
        resolve_image: 504,
        g0_imageview: 505,
        g1_imageview: 506,
        resolve_imageview: 507,
        depth_imageview_depth_only: 508,
        framebuffers: Framebuffers { deferred: 0, pp_a: 0, pp_b: 0 },
    }
}

/// The answer to a step, with handles numbered by the step.
fn answer(call: SetupCall, step: u64) -> SetupReply<u32> {
    match call {
        SetupCall::InitSwapchain => SetupReply::Swapchain(swapchain()),
        SetupCall::ChooseFormat => SetupReply::Format(44),
        SetupCall::CreateFramebuffers { .. } => {
            SetupReply::Framebuffers(Framebuffers { deferred: 601, pp_a: 602, pp_b: 603 })
        }
        SetupCall::CreateCommandbuffers { count } => {
            SetupReply::Handles((0..count as u64).map(|i| 700 + i).collect())
        }
        SetupCall::CreateUniformBuffer { frames } => {
            SetupReply::UniformBuffer(PerFrameUniformBuffer {
                buffer: 800,
                size: 160,
                offsets: (0..frames).map(|i| 256 * i).collect(),
            })
        }
        SetupCall::InitDeviceAndQueues
        | SetupCall::CreateRenderPass(_)
        | SetupCall::InitRenderPass { .. }
        | SetupCall::CreateDescriptorSetLayout(_)
        | SetupCall::CreatePipelineLayout(_)
        | SetupCall::CreateSemaphore
        | SetupCall::CreateFence { .. }
        | SetupCall::CreateSampler(_) => SetupReply::Handle(1000 + step),
        _ => SetupReply::Done,
    }
}

fn run(frames: u8) -> (Vec<SetupCall>, Setup<u32>) {
    let mut setup = VulkanManager::new(info(), frames);
    let mut calls = vec![];
    while let Some(call) = setup.next() {
        setup.reply(answer(call, calls.len() as u64));
        calls.push(call);
    }
    (calls, setup)
}

#[test]
fn everything_is_created_in_order() {
    let (calls, setup) = run(1);
    let fragment = ShaderStages { vertex: false, fragment: true };
    let vertex = ShaderStages { vertex: true, fragment: false };
    let input = |binding: u32| LayoutBinding {
        binding,
        descriptor_type: DescriptorType::InputAttachment,
        descriptor_count: 1,
        stages: fragment,
    };
    let expected = vec![
        SetupCall::LoadEntry,
        SetupCall::InitInstance,
        SetupCall::InitDebugMessenger,
        SetupCall::InitSurface,
        SetupCall::SelectPhysicalDevice,
        SetupCall::InitQueueFamilies,
        SetupCall::InitDeviceAndQueues,
        SetupCall::CreateAllocator,
        SetupCall::InitSwapchain,
        SetupCall::CreateRenderPass(RenderPassInfo {
            attachment: AttachmentInfo {
                format: Format::R32G32B32A32Sfloat,
                load_op: LoadOp::DontCare,
                store_op: StoreOp::Store,
                initial_layout: ImageLayout::Undefined,
                final_layout: ImageLayout::ShaderReadOnlyOptimal,
            },
            color_attachment: AttachmentReference {
                attachment: 0,
                layout: ImageLayout::ColorAttachmentOptimal,
            },
            dependency: DependencyInfo {
                src_subpass: SubpassEnd::Outside,
                dst_subpass: SubpassEnd::Subpass(0),
                src_stage: PipelineStage::FragmentShader,
                dst_stage: PipelineStage::ColorAttachmentOutput,
                src_access: Access::ShaderRead,
                dst_access: Access::ColorAttachmentWrite,
            },
        }),
        SetupCall::ChooseFormat,
        SetupCall::InitRenderPass { format: 44 },
        SetupCall::CreateFramebuffers { renderpass: 1011, renderpass_pp: 1009 },
        SetupCall::InitPools,
        SetupCall::CreateCommandbuffers { count: 1 },
        SetupCall::CreateUniformBuffer { frames: 1 },
        SetupCall::CreateDescriptorSetLayout(SetLayoutInfo::FrameData {
            camera: LayoutBinding {
                binding: 0,
                descriptor_type: DescriptorType::UniformBufferDynamic,
                descriptor_count: 1,
                stages: ShaderStages { vertex: true, fragment: true },
            },
            albedo_roughness: input(1),
            normal_metallic: input(2),
            depth: input(3),
        }),
        SetupCall::CreatePipelineLayout(PipelineLayoutInfo {
            set_layout: 1016,
            push_constants: Some(PushConstantRange { stages: vertex, offset: 0, size: 128 }),
        }),
        SetupCall::CreatePipelineLayout(PipelineLayoutInfo {
            set_layout: 1016,
            push_constants: Some(PushConstantRange { stages: fragment, offset: 0, size: 32 }),
        }),
        SetupCall::CreateDescriptorManager,
        SetupCall::CreateSemaphore,
        SetupCall::CreateSemaphore,
        SetupCall::CreateFence { signaled: true },
        SetupCall::CreateSampler(SamplerInfo {
            mag_filter: Filter::Linear,
            min_filter: Filter::Linear,
            mipmap_mode: Filter::Nearest,
            address_mode: AddressMode::ClampToEdge,
            min_lod: Lod::Level(0),
            max_lod: Lod::Unclamped,
        }),
        SetupCall::CreateDescriptorSetLayout(SetLayoutInfo::PostProcess {
            source: LayoutBinding {
                binding: 0,
                descriptor_type: DescriptorType::CombinedImageSampler,
                descriptor_count: 1,
                stages: fragment,
            },
            immutable_sampler: 1023,
        }),
        SetupCall::CreatePipelineLayout(PipelineLayoutInfo {
            set_layout: 1024,
            push_constants: None,
        }),
    ];
    assert_eq!(calls, expected);
    assert_eq!(setup.stage, SetupStage::Finished);
}

#[test]
fn each_frame_gets_its_own_objects() {
    let (calls, setup) = run(3);
    assert_eq!(calls.len(), 23 + 3 * 3);
    assert_eq!(setup.engine_info, info());
    let manager = setup.finish().unwrap();
    assert_eq!(manager.image_acquire_semaphores, vec![1020, 1023, 1026]);
    assert_eq!(manager.render_finished_semaphores, vec![1021, 1024, 1027]);
    assert_eq!(manager.frame_resource_fences, vec![1022, 1025, 1028]);
    assert_eq!(manager.commandbuffers, vec![700, 701, 702]);
    assert_eq!(manager.uniform_buffer.offsets, vec![0, 256, 512]);
    assert_eq!(manager.graphics_queue, 1006);
    assert_eq!(manager.renderpass_pp, 1009);
    assert_eq!(manager.renderpass, 1011);
    assert_eq!(manager.desc_layout_frame_data, 1016);
    assert_eq!(manager.pipeline_layout_gpass, 1017);
    assert_eq!(manager.pipeline_layout_resolve_pass, 1018);
    assert_eq!(manager.sampler_linear, 1029);
    assert_eq!(manager.desc_layout_pp, 1030);
    assert_eq!(manager.pipe_layout_pp, 1031);
    assert_eq!(manager.swapchain.swapchain, 500);
    assert_eq!(manager.swapchain.framebuffers.pp_b, 603);
    assert_eq!(manager.max_frames_in_flight, 3);
    assert_eq!(manager.get_current_frame_index(), 0);
    assert_eq!(manager.lighting_pipelines.len(), 0);
    assert_eq!(manager.pp_effects.len(), 0);
}

#[test]
fn without_frames_no_frame_objects_are_created() {
    let (calls, setup) = run(0);
    assert_eq!(calls.len(), 23);
    assert!(!calls.contains(&SetupCall::CreateSemaphore));
    assert_eq!(setup.stage, SetupStage::Finished);
    assert_eq!(setup.finish().unwrap().frame_resource_fences, Vec::<u64>::new());
}

#[test]
fn a_failed_step_ends_the_creation() {
    for failing in 0..23 + 3 * 2 {
        if failing == 3 {
            continue;
        }
        let mut setup = VulkanManager::new(info(), 2);
        for step in 0..failing {
            let call = setup.next().unwrap();
            setup.reply(answer(call, step));
        }
        assert!(setup.next().is_some());
        setup.reply(SetupReply::Failed(4000 + failing as u32));
        assert_eq!(setup.stage, SetupStage::Failed);
        assert_eq!(setup.next(), None);
        assert_eq!(setup.finish().err(), Some(4000 + failing as u32));
    }
}

#[test]
fn dropping_destroys_what_was_created() {
    let (_, setup) = run(2);
    let manager = setup.finish().unwrap();
    let mut script = manager.drop();
    let mut calls = vec![];
    while let Some(call) = script.next() {
        calls.push(call);
        script.reply(CallReply::Done);
    }
    assert_eq!(
        calls,
        vec![
            DeviceCall::DeviceWaitIdle,
            DeviceCall::ClearLightingPipelines,
            DeviceCall::ClearPPEffects,
            DeviceCall::DestroySemaphore(1020),
            DeviceCall::DestroySemaphore(1023),
            DeviceCall::DestroySemaphore(1021),
            DeviceCall::DestroySemaphore(1024),
            DeviceCall::DestroyFence(1022),
            DeviceCall::DestroyFence(1025),
            DeviceCall::DestroyDescriptorManager,
            DeviceCall::DestroyUniformBuffer,
            DeviceCall::CleanupPools,
            DeviceCall::DestroyRenderPass(1011),
            DeviceCall::DestroyRenderPass(1009),
            DeviceCall::CleanupSwapchain,
            DeviceCall::DestroySampler(1026),
            DeviceCall::DestroyDescriptorSetLayout(1016),
            DeviceCall::DestroyDescriptorSetLayout(1027),
            DeviceCall::DestroyPipelineLayout(1017),
            DeviceCall::DestroyPipelineLayout(1018),
            DeviceCall::DestroyPipelineLayout(1028),
            DeviceCall::DropAllocator,
            DeviceCall::DestroyDevice,
            DeviceCall::DropSurface,
            DeviceCall::DropDebugMessenger,
            DeviceCall::DestroyInstance,
        ]
    );
}

#[test]
fn dropping_gives_up_if_the_device_does_not_come_to_rest() {
    let (_, setup) = run(1);
    let mut script = setup.finish().unwrap().drop();
    assert_eq!(
        script.steps[0],
        Step {
            call: DeviceCall::DeviceWaitIdle,
            on_failure: Some(Failure::WaitBeforeTeardown),
        }
    );
    script.reply(CallReply::Failed(-4));
    assert_eq!(script.next(), None);
    assert_eq!(script.failure, Some((Failure::WaitBeforeTeardown, -4)));
}

fn names(list: &[&str]) -> Vec<String> {
    list.iter().map(|name| name.to_string()).collect()
}

#[test]
fn the_instance_has_the_packed_versions() {
    let info = VulkanManager::init_instance(&info(), names(&[]), names(&[]), false, false);
    assert_eq!(info.application_version, 1);
    assert_eq!(info.engine_version, 1);
    assert_eq!(info.api_version, 4_202_496);
    assert_eq!(info.api_version, ash::vk::API_VERSION_1_2);
    assert_eq!(info.application_name, "demo");
    assert_eq!(info.engine_name, "demo");
}

#[test]
fn the_instance_has_the_surface_and_debug_extensions() {
    let info = VulkanManager::init_instance(
        &info(),
        names(&["VK_KHR_surface", "VK_KHR_xlib_surface"]),
        names(&["VK_LAYER_KHRONOS_validation"]),
        true,
        true,
    );
    assert_eq!(
        info.extension_names,
        names(&["VK_KHR_surface", "VK_KHR_xlib_surface", "VK_EXT_debug_utils"])
    );
    assert_eq!(
        info.validation,
        Validation::Enabled { layer_names: names(&["VK_LAYER_KHRONOS_validation"]) }
    );
}

#[test]
fn validation_needs_to_be_wanted_and_present() {
    for (wanted, present) in [(false, false), (true, false), (false, true)] {
        let info =
            VulkanManager::init_instance(&info(), names(&[]), names(&["layer"]), wanted, present);
        assert_eq!(info.validation, Validation::Disabled);
        assert_eq!(info.extension_names, names(&["VK_EXT_debug_utils"]));
    }
}
