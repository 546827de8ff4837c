//! What the creation of a renderer makes of the answers to its steps.

use vstd::prelude::*;

use crate::vulkan::command::ShaderStages;
use crate::vulkan::manager::{Swapchain, VulkanManager};
use crate::vulkan::setup::{
    course, frame_data_layout_info, law_setup_as_a_whole, pp_render_pass_info, sampler_info,
    DescriptorType, LayoutBinding, PipelineLayoutInfo, PushConstantRange, SetLayoutInfo, Setup,
    SetupCall, SetupReply,
};

verus! {

/// Whether a creation without a failure holds, after some steps, what these were answered with, each
/// answer at its own place.
pub open spec fn holds_answers<E>(setup: Setup<E>, replies: Seq<SetupReply<E>>) -> bool {
    let m = setup.manager;
    let k = replies.len();
    let n = m.max_frames_in_flight as int;
    &&& k > 6 ==> replies[6] == SetupReply::<E>::Handle(m.graphics_queue)
    &&& 8 < k <= 12 ==> replies[8] == SetupReply::<E>::Swapchain(m.swapchain)
    &&& k > 9 ==> replies[9] == SetupReply::<E>::Handle(m.renderpass_pp)
    &&& k > 10 ==> replies[10] == SetupReply::<E>::Format(setup.format)
    &&& k > 11 ==> replies[11] == SetupReply::<E>::Handle(m.renderpass)
    &&& k > 12 ==> {
        &&& replies[12] == SetupReply::<E>::Framebuffers(m.swapchain.framebuffers)
        &&& replies[8] matches SetupReply::Swapchain(swapchain)
        &&& m.swapchain == Swapchain { framebuffers: m.swapchain.framebuffers, ..swapchain }
    }
    &&& k > 14 ==> replies[14] == SetupReply::<E>::Handles(m.commandbuffers)
    &&& k > 15 ==> replies[15] == SetupReply::<E>::UniformBuffer(m.uniform_buffer)
    &&& k > 16 ==> replies[16] == SetupReply::<E>::Handle(m.desc_layout_frame_data)
    &&& k > 17 ==> replies[17] == SetupReply::<E>::Handle(m.pipeline_layout_gpass)
    &&& k > 18 ==> replies[18] == SetupReply::<E>::Handle(m.pipeline_layout_resolve_pass)
    &&& forall|i: int|
        0 <= i < m.image_acquire_semaphores@.len() ==> replies[20 + 3 * i] == SetupReply::<
            E,
        >::Handle(#[trigger] m.image_acquire_semaphores@[i])
    &&& forall|i: int|
        0 <= i < m.render_finished_semaphores@.len() ==> replies[21 + 3 * i] == SetupReply::<
            E,
        >::Handle(#[trigger] m.render_finished_semaphores@[i])
    &&& forall|i: int|
        0 <= i < m.frame_resource_fences@.len() ==> replies[22 + 3 * i] == SetupReply::<E>::Handle(
            #[trigger] m.frame_resource_fences@[i],
        )
    &&& k > 20 + 3 * n ==> replies[20 + 3 * n] == SetupReply::<E>::Handle(m.sampler_linear)
    &&& k > 21 + 3 * n ==> replies[21 + 3 * n] == SetupReply::<E>::Handle(m.desc_layout_pp)
    &&& k > 22 + 3 * n ==> replies[22 + 3 * n] == SetupReply::<E>::Handle(m.pipe_layout_pp)
}

#[verifier::rlimit(60)]
proof fn lemma_step_keeps_answer<E>(
    setup: Setup<E>,
    replies: Seq<SetupReply<E>>,
    reply: SetupReply<E>,
    next: Setup<E>,
)
    requires
        setup.wf(),
        setup.steps_done() == replies.len(),
        setup.answered_by(reply),
        setup.leads_to(reply, next),
        reply !is Failed,
        setup.stage !is Failed,
        holds_answers(setup, replies),
    ensures
        holds_answers(next, replies.push(reply)),
{
    let all = replies.push(reply);
    let m = setup.manager;
    let x = next.manager;
    assert forall|i: int| 0 <= i < x.image_acquire_semaphores@.len() implies all[20 + 3 * i]
        == SetupReply::<E>::Handle(#[trigger] x.image_acquire_semaphores@[i]) by {
        if i < m.image_acquire_semaphores@.len() {
            assert(x.image_acquire_semaphores@[i] == m.image_acquire_semaphores@[i]);
        }
    }
    assert forall|i: int| 0 <= i < x.render_finished_semaphores@.len() implies all[21 + 3 * i]
        == SetupReply::<E>::Handle(#[trigger] x.render_finished_semaphores@[i]) by {
        if i < m.render_finished_semaphores@.len() {
            assert(x.render_finished_semaphores@[i] == m.render_finished_semaphores@[i]);
        }
    }
    assert forall|i: int| 0 <= i < x.frame_resource_fences@.len() implies all[22 + 3 * i]
        == SetupReply::<E>::Handle(#[trigger] x.frame_resource_fences@[i]) by {
        if i < m.frame_resource_fences@.len() {
            assert(x.frame_resource_fences@[i] == m.frame_resource_fences@[i]);
        }
    }
}

/// A creation keeps the answers to its steps, each at its own place and unchanged: what the renderer
/// is made of, in the end, is what the steps were answered with. What it was started with stays.
pub proof fn law_renderer_is_made_of_the_answers<E>(
    states: Seq<Setup<E>>,
    replies: Seq<SetupReply<E>>,
)
    requires
        course(states, replies),
        forall|i: int| 0 <= i < replies.len() ==> !(#[trigger] replies[i] is Failed),
    ensures
        holds_answers(states.last(), replies),
        states.last().engine_info == states[0].engine_info,
        states.last().manager.max_frames_in_flight == states[0].manager.max_frames_in_flight,
        states.last().manager.current_frame_index == 0,
        states.last().manager.lighting_pipelines@.len() == 0,
        states.last().manager.pp_effects@.len() == 0,
        states.last().outcome() matches Some(outcome) ==> outcome == Ok::<VulkanManager, E>(
            states.last().manager,
        ),
    decreases replies.len(),
{
    law_setup_as_a_whole(states, replies);
    if replies.len() > 0 {
        let k = replies.len() - 1;
        let before = states.drop_last();
        assert forall|i: int| 0 <= i < k implies {
            &&& (#[trigger] before[i]).answered_by(replies.drop_last()[i])
            &&& before[i].leads_to(replies.drop_last()[i], before[i + 1])
        } by {
            assert(states[i].answered_by(replies[i]));
        }
        law_renderer_is_made_of_the_answers(before, replies.drop_last());
        law_setup_as_a_whole(before, replies.drop_last());
        assert(states[k].answered_by(replies[k]));
        lemma_step_keeps_answer(states[k], replies.drop_last(), replies[k], states[k + 1]);
        assert(replies.drop_last().push(replies[k]) == replies);
    }
}

/// The pipeline layout with one set and one block of push constants.
pub open spec fn with_block(set_layout: u64, stages: ShaderStages, size: u32) -> PipelineLayoutInfo {
    PipelineLayoutInfo {
        set_layout,
        push_constants: Some(PushConstantRange { stages, offset: 0, size }),
    }
}

/// The step after `k` steps that did not fail, given what those were answered with.
pub open spec fn step_due(n: int, k: int, m: VulkanManager, format: i32) -> Option<SetupCall> {
    if k == 0 {
        Some(SetupCall::LoadEntry)
    } else if k == 1 {
        Some(SetupCall::InitInstance)
    } else if k == 2 {
        Some(SetupCall::InitDebugMessenger)
    } else if k == 3 {
        Some(SetupCall::InitSurface)
    } else if k == 4 {
        Some(SetupCall::SelectPhysicalDevice)
    } else if k == 5 {
        Some(SetupCall::InitQueueFamilies)
    } else if k == 6 {
        Some(SetupCall::InitDeviceAndQueues)
    } else if k == 7 {
        Some(SetupCall::CreateAllocator)
    } else if k == 8 {
        Some(SetupCall::InitSwapchain)
    } else if k == 9 {
        Some(SetupCall::CreateRenderPass(pp_render_pass_info()))
    } else if k == 10 {
        Some(SetupCall::ChooseFormat)
    } else if k == 11 {
        Some(SetupCall::InitRenderPass { format })
    } else if k == 12 {
        Some(
            SetupCall::CreateFramebuffers {
                renderpass: m.renderpass,
                renderpass_pp: m.renderpass_pp,
            },
        )
    } else if k == 13 {
        Some(SetupCall::InitPools)
    } else if k == 14 {
        Some(SetupCall::CreateCommandbuffers { count: n as usize })
    } else if k == 15 {
        Some(SetupCall::CreateUniformBuffer { frames: n as u64 })
    } else if k == 16 {
        Some(SetupCall::CreateDescriptorSetLayout(frame_data_layout_info()))
    } else if k == 17 {
        Some(
            SetupCall::CreatePipelineLayout(
                with_block(
                    m.desc_layout_frame_data,
                    ShaderStages { vertex: true, fragment: false },
                    128,
                ),
            ),
        )
    } else if k == 18 {
        Some(
            SetupCall::CreatePipelineLayout(
                with_block(
                    m.desc_layout_frame_data,
                    ShaderStages { vertex: false, fragment: true },
                    32,
                ),
            ),
        )
    } else if k == 19 {
        Some(SetupCall::CreateDescriptorManager)
    } else if k < 20 + 3 * n {
        if (k - 20) % 3 == 2 {
            Some(SetupCall::CreateFence { signaled: true })
        } else {
            Some(SetupCall::CreateSemaphore)
        }
    } else if k == 20 + 3 * n {
        Some(SetupCall::CreateSampler(sampler_info()))
    } else if k == 21 + 3 * n {
        Some(
            SetupCall::CreateDescriptorSetLayout(
                SetLayoutInfo::PostProcess {
                    source: LayoutBinding {
                        binding: 0,
                        descriptor_type: DescriptorType::CombinedImageSampler,
                        descriptor_count: 1,
                        stages: ShaderStages { vertex: false, fragment: true },
                    },
                    immutable_sampler: m.sampler_linear,
                },
            ),
        )
    } else if k == 22 + 3 * n {
        Some(
            SetupCall::CreatePipelineLayout(
                PipelineLayoutInfo { set_layout: m.desc_layout_pp, push_constants: None },
            ),
        )
    } else {
        None
    }
}

/// The steps of a creation come in one order, whatever the number of frames: two semaphores and a
/// fence, which is signalled, for each frame between the twentieth step and the last three. Every
/// step is given what earlier steps were answered with: the format of the surface, the two render
/// passes, the layouts and the sampler. As many command buffers and camera places are asked for as
/// there are frames.
#[verifier::rlimit(60)]
pub proof fn law_steps_are_given_the_answers<E>(
    states: Seq<Setup<E>>,
    replies: Seq<SetupReply<E>>,
)
    requires
        course(states, replies),
        forall|i: int| 0 <= i < replies.len() ==> !(#[trigger] replies[i] is Failed),
    ensures
        ({
            let n = states[0].manager.max_frames_in_flight as int;
            let last = states.last();
            &&& holds_answers(last, replies)
            &&& last.call() == step_due(n, replies.len() as int, last.manager, last.format)
        }),
{
    law_setup_as_a_whole(states, replies);
    law_renderer_is_made_of_the_answers(states, replies);
}

} // verus!
