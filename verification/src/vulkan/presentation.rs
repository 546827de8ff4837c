//! Taking the frames in flight in turn: waiting for one, submitting it and showing it.

use vstd::prelude::*;

use crate::vulkan::command::PipelineStage;
use crate::vulkan::manager::{Framebuffers, Swapchain, VulkanManager};
use crate::vulkan::outside::{out_of_date, out_of_date_code};
use crate::vulkan::script::{
    sure, unstarted, vital, CallReply, DeviceCall, Failure, Script, Step,
};

verus! {

/// The frame after `current`: the next one, and after the last one the first.
pub open spec fn following_frame(current: int, frames: int) -> int {
    (current + 1) % frames
}

/// A request to show an image of a swapchain once a semaphore is signalled.
#[derive(Clone, Copy, Debug, PartialEq, Eq)]
pub struct PresentRequest {
    pub queue: u64,
    pub wait_semaphore: u64,
    pub swapchain: u64,
    pub image_index: u32,
}

/// Where the replacement of a swapchain stands: what is to be done next, or how it ended.
#[derive(Debug, PartialEq, Eq)]
pub enum Recreation<E> {
    /// Wait until the device has nothing left to do.
    WaitIdle,
    /// Destroy the present swapchain with its images and framebuffers.
    Cleanup,
    /// Create a swapchain for the surface as it is now.
    Init,
    /// Create the framebuffers of the new swapchain for the two render passes.
    CreateFramebuffers { renderpass: u64, renderpass_pp: u64 },
    /// The swapchain has been replaced.
    Finished,
    /// A step failed, and its error is the result.
    Failed(E),
    /// The renderer gives up because of this error.
    Panicked(Failure, E),
}

/// What became of a step of the replacement of a swapchain.
#[derive(Debug, PartialEq, Eq)]
pub enum RecreationReply<E> {
    Done,
    Swapchain(Swapchain),
    Framebuffers(Framebuffers),
    /// The error of the step.
    Failed(E),
}

/// Whether a reply is one that a step can have.
pub open spec fn answers<E>(stage: Recreation<E>, reply: RecreationReply<E>) -> bool {
    match stage {
        Recreation::WaitIdle => reply is Done || reply is Failed,
        Recreation::Cleanup => reply is Done,
        Recreation::Init => reply is Swapchain || reply is Failed,
        Recreation::CreateFramebuffers { .. } => reply is Framebuffers || reply is Failed,
        _ => false,
    }
}

/// What is to be done once an image was to be shown.
#[derive(Debug, PartialEq, Eq)]
pub enum Presentation<E> {
    /// Nothing more.
    Finished,
    /// The swapchain is outdated and has to be replaced.
    Recreate(Recreation<E>),
    /// The renderer gives up, and names the error of a step if one failed.
    Panicked(Failure, Option<E>),
}

/// What follows from the answer to a request to show an image: success is success, however well
/// the swapchain still fits; an outdated swapchain is replaced; anything else is fatal.
pub open spec fn presentation_after<E>(result: Result<bool, i32>) -> Presentation<E> {
    match result {
        Ok(_) => Presentation::Finished,
        Err(code) => if code == out_of_date() {
            Presentation::Recreate(Recreation::WaitIdle)
        } else {
            Presentation::Panicked(Failure::Presentation, None)
        },
    }
}

/// What the replacement of an outdated swapchain means for showing the image: it goes on, or has
/// succeeded, or is fatal.
pub open spec fn presentation_during<E>(stage: Recreation<E>) -> Presentation<E> {
    match stage {
        Recreation::Finished => Presentation::Finished,
        Recreation::Failed(error) => Presentation::Panicked(
            Failure::SwapchainRecreation,
            Some(error),
        ),
        Recreation::Panicked(failure, error) => Presentation::Panicked(failure, Some(error)),
        _ => Presentation::Recreate(stage),
    }
}

impl VulkanManager {
    /// The fence of the current frame.
    pub open spec fn frame_fence(self) -> u64 {
        self.frame_resource_fences@[self.current_frame_index as int]
    }

    /// The command buffer of the current frame.
    pub open spec fn frame_commandbuffer(self) -> u64 {
        self.commandbuffers@[self.current_frame_index as int]
    }

    /// The semaphore that says that the image of the current frame can be drawn to.
    pub open spec fn acquire_semaphore(self) -> u64 {
        self.image_acquire_semaphores@[self.current_frame_index as int]
    }

    /// The semaphore that says that the current frame has been drawn.
    pub open spec fn finished_semaphore(self) -> u64 {
        self.render_finished_semaphores@[self.current_frame_index as int]
    }

    /// The calls that start a frame.
    pub open spec fn next_frame_steps(self) -> Seq<Step> {
        seq![
            sure(DeviceCall::NextDescriptorFrame),
            sure(DeviceCall::AcquireNextImage { semaphore: self.acquire_semaphore() }),
        ]
    }

    /// The calls that wait until the resources of the current frame are free.
    pub open spec fn wait_for_fence_steps(self) -> Seq<Step> {
        seq![
            vital(
                DeviceCall::WaitForFence {
                    fence: self.frame_fence(),
                    wait_all: true,
                    timeout: u64::MAX,
                },
                Failure::FenceWaiting,
            ),
            vital(DeviceCall::ResetFence { fence: self.frame_fence() }, Failure::FenceReset),
        ]
    }

    /// The call that submits the current frame.
    pub open spec fn submit_steps(self) -> Seq<Step> {
        seq![
            vital(
                DeviceCall::QueueSubmit {
                    queue: self.graphics_queue,
                    wait_semaphore: self.acquire_semaphore(),
                    wait_stage: PipelineStage::TopOfPipe,
                    commandbuffer: self.frame_commandbuffer(),
                    signal_semaphore: self.finished_semaphore(),
                    fence: self.frame_fence(),
                },
                Failure::QueueSubmission,
            ),
        ]
    }

    /// The request to show the current frame.
    pub open spec fn present_request(self, image_index: u32) -> PresentRequest {
        PresentRequest {
            queue: self.graphics_queue,
            wait_semaphore: self.finished_semaphore(),
            swapchain: self.swapchain.swapchain,
            image_index,
        }
    }

    /// Makes the following frame the current one. What is left to do is to start the next frame of
    /// the descriptor manager and to ask for an image to draw to, which is what the script ends
    /// with.
    pub fn next_frame(&mut self) -> (script: Script)
        requires
            old(self).wf(),
            old(self).max_frames_in_flight > 0,
        ensures
            *final(self) == (VulkanManager {
                current_frame_index: following_frame(
                    old(self).current_frame_index as int,
                    old(self).max_frames_in_flight as int,
                ) as u8,
                ..*old(self)
            }),
            final(self).current_frame_index == (old(self).current_frame_index + 1) % (old(
                self,
            ).max_frames_in_flight as int),
            final(self).wf(),
            script@ == unstarted(final(self).next_frame_steps()),
            forall|image_index: u32|
                (#[trigger] script@.after(CallReply::Done).after(
                    CallReply::Image(image_index),
                )).outcome() == Some(Ok::<Option<u32>, (Failure, i32)>(Some(image_index))),
    {
        self.current_frame_index = (self.current_frame_index + 1) % self.max_frames_in_flight;
        let semaphore = self.image_acquire_semaphores[self.current_frame_index as usize];
        let mut steps: Vec<Step> = Vec::new();
        steps.push(Step::sure(DeviceCall::NextDescriptorFrame));
        steps.push(Step::sure(DeviceCall::AcquireNextImage { semaphore }));
        assert(steps@ == self.next_frame_steps());
        Script::new(steps)
    }

    /// What has to be done before the resources of the current frame can be used again: waiting
    /// for its fence, without a limit, and resetting it.
    pub fn wait_for_fence(&self) -> (script: Script)
        requires
            self.wf(),
            self.max_frames_in_flight > 0,
        ensures
            script@ == unstarted(self.wait_for_fence_steps()),
    {
        let fence = self.frame_resource_fences[self.current_frame_index as usize];
        let mut steps: Vec<Step> = Vec::new();
        steps.push(
            Step::vital(
                DeviceCall::WaitForFence { fence, wait_all: true, timeout: u64::MAX },
                Failure::FenceWaiting,
            ),
        );
        steps.push(Step::vital(DeviceCall::ResetFence { fence }, Failure::FenceReset));
        assert(steps@ == self.wait_for_fence_steps());
        Script::new(steps)
    }

    /// The submission of the current frame's command buffer.
    pub fn submit(&self) -> (script: Script)
        requires
            self.wf(),
            self.max_frames_in_flight > 0,
        ensures
            script@ == unstarted(self.submit_steps()),
    {
        let frame = self.current_frame_index as usize;
        let mut steps: Vec<Step> = Vec::new();
        steps.push(
            Step::vital(
                DeviceCall::QueueSubmit {
                    queue: self.graphics_queue,
                    wait_semaphore: self.image_acquire_semaphores[frame],
                    wait_stage: PipelineStage::TopOfPipe,
                    commandbuffer: self.commandbuffers[frame],
                    signal_semaphore: self.render_finished_semaphores[frame],
                    fence: self.frame_resource_fences[frame],
                },
                Failure::QueueSubmission,
            ),
        );
        assert(steps@ == self.submit_steps());
        Script::new(steps)
    }

    /// Waiting until the device has nothing left to do.
    pub fn wait_idle(&self) -> (script: Script)
        ensures
            script@ == unstarted(seq![vital(DeviceCall::DeviceWaitIdle, Failure::WaitIdle)]),
    {
        let mut steps: Vec<Step> = Vec::new();
        steps.push(Step::vital(DeviceCall::DeviceWaitIdle, Failure::WaitIdle));
        assert(steps@ == seq![vital(DeviceCall::DeviceWaitIdle, Failure::WaitIdle)]);
        Script::new(steps)
    }

    /// The request to show an image of the swapchain once the current frame has been drawn.
    pub fn present(&self, image_index: u32) -> (request: PresentRequest)
        requires
            self.wf(),
            self.max_frames_in_flight > 0,
        ensures
            request == self.present_request(image_index),
            request.image_index == image_index,
            request.swapchain == self.swapchain.swapchain,
            request.queue == self.graphics_queue,
            request.wait_semaphore == self.render_finished_semaphores@[self.current_frame_index as int],
    {
        PresentRequest {
            queue: self.graphics_queue,
            wait_semaphore: self.render_finished_semaphores[self.current_frame_index as usize],
            swapchain: self.swapchain.swapchain,
            image_index,
        }
    }

    /// What follows from the answer to the request to show an image.
    pub fn presented<E>(&self, result: Result<bool, i32>) -> (presentation: Presentation<E>)
        ensures
            presentation == presentation_after::<E>(result),
            presentation is Finished <==> result is Ok,
            presentation == Presentation::<E>::Recreate(Recreation::WaitIdle) <==> result == Err::<
                bool,
                i32,
            >(out_of_date()),
            presentation is Recreate ==> presentation == Presentation::<E>::Recreate(
                Recreation::WaitIdle,
            ),
            presentation matches Presentation::Panicked(failure, error) ==> failure
                == Failure::Presentation && error is None,
    {
        match result {
            Ok(_) => Presentation::Finished,
            Err(code) => {
                if code == out_of_date_code() {
                    Presentation::Recreate(Recreation::WaitIdle)
                } else {
                    Presentation::Panicked(Failure::Presentation, None)
                }
            },
        }
    }

    /// What is to be done after a step of the replacement of an outdated swapchain, where the
    /// replacement was due because an image could not be shown.
    pub fn present_recreating<E>(&mut self, stage: Recreation<E>, reply: RecreationReply<E>) -> (
    presentation: Presentation<E>)
        requires
            answers(stage, reply),
        ensures
            *final(self) == old(self).after_recreation(stage, reply),
            old(self).wf() ==> final(self).wf(),
            presentation == presentation_during(old(self).recreation_after(stage, reply)),
    {
        let next = self.recreate_swapchain(stage, reply);
        match next {
            Recreation::Finished => Presentation::Finished,
            Recreation::Failed(error) => Presentation::Panicked(
                Failure::SwapchainRecreation,
                Some(error),
            ),
            Recreation::Panicked(failure, error) => Presentation::Panicked(failure, Some(error)),
            _ => Presentation::Recreate(next),
        }
    }

    /// What comes after a step of the replacement of the swapchain.
    pub open spec fn recreation_after<E>(
        self,
        stage: Recreation<E>,
        reply: RecreationReply<E>,
    ) -> Recreation<E> {
        match (stage, reply) {
            (Recreation::WaitIdle, RecreationReply::Done) => Recreation::Cleanup,
            (Recreation::WaitIdle, RecreationReply::Failed(error)) => Recreation::Panicked(
                Failure::WaitBeforeRecreation,
                error,
            ),
            (Recreation::Cleanup, _) => Recreation::Init,
            (Recreation::Init, RecreationReply::Swapchain(_)) => Recreation::CreateFramebuffers {
                renderpass: self.renderpass,
                renderpass_pp: self.renderpass_pp,
            },
            (
                Recreation::CreateFramebuffers { .. },
                RecreationReply::Framebuffers(_),
            ) => Recreation::Finished,
            (_, RecreationReply::Failed(error)) => Recreation::Failed(error),
            _ => stage,
        }
    }

    /// The renderer after a step of the replacement of its swapchain: a new swapchain, and then its
    /// framebuffers, take the place of the former ones.
    pub open spec fn after_recreation<E>(
        self,
        stage: Recreation<E>,
        reply: RecreationReply<E>,
    ) -> VulkanManager {
        match (stage, reply) {
            (Recreation::Init, RecreationReply::Swapchain(swapchain)) => VulkanManager {
                swapchain,
                ..self
            },
            (
                Recreation::CreateFramebuffers { .. },
                RecreationReply::Framebuffers(framebuffers),
            ) => VulkanManager {
                swapchain: Swapchain { framebuffers, ..self.swapchain },
                ..self
            },
            _ => self,
        }
    }

    /// Takes what became of a step of the replacement of the swapchain, the first of which is
    /// `Recreation::WaitIdle`, and says what comes next. The device has to be idle and the former
    /// swapchain destroyed before a new one is created; then its framebuffers are. If one of the
    /// two cannot be created, the error of that step is the result.
    pub fn recreate_swapchain<E>(&mut self, stage: Recreation<E>, reply: RecreationReply<E>) -> (
    next: Recreation<E>)
        requires
            answers(stage, reply),
        ensures
            *final(self) == old(self).after_recreation(stage, reply),
            old(self).wf() ==> final(self).wf(),
            next == old(self).recreation_after(stage, reply),
    {
        match (stage, reply) {
            (Recreation::WaitIdle, RecreationReply::Done) => Recreation::Cleanup,
            (Recreation::WaitIdle, RecreationReply::Failed(error)) => Recreation::Panicked(
                Failure::WaitBeforeRecreation,
                error,
            ),
            (Recreation::Cleanup, _) => Recreation::Init,
            (Recreation::Init, RecreationReply::Swapchain(swapchain)) => {
                self.swapchain = swapchain;
                Recreation::CreateFramebuffers {
                    renderpass: self.renderpass,
                    renderpass_pp: self.renderpass_pp,
                }
            },
            (
                Recreation::CreateFramebuffers { .. },
                RecreationReply::Framebuffers(framebuffers),
            ) => {
                self.swapchain.framebuffers = framebuffers;
                Recreation::Finished
            },
            (_, RecreationReply::Failed(error)) => Recreation::Failed(error),
            (stage, _) => stage,
        }
    }
}

/// The frame that is current after `n` more frames.
pub open spec fn frame_after(current: int, frames: int, n: nat) -> int
    decreases n,
{
    if n == 0 {
        current
    } else {
        following_frame(frame_after(current, frames, (n - 1) as nat), frames)
    }
}

/// The frames in flight take turns: `n` frames on, the current one is `n` further, counted around.
pub proof fn law_frames_take_turns(current: int, frames: int, n: nat)
    requires
        0 <= current < frames,
    ensures
        frame_after(current, frames, n) == (current + n) % frames,
        0 <= frame_after(current, frames, n) < frames,
    decreases n,
{
    if n == 0 {
        vstd::arithmetic::div_mod::lemma_small_mod(current as nat, frames as nat);
    } else {
        law_frames_take_turns(current, frames, (n - 1) as nat);
        vstd::arithmetic::div_mod::lemma_add_mod_noop(current + n - 1, 1, frames);
        vstd::arithmetic::div_mod::lemma_mod_bound(current + n, frames);
        if frames > 1 {
            vstd::arithmetic::div_mod::lemma_small_mod(1, frames as nat);
        }
    }
}

/// A frame in flight comes round again after as many frames as there are in flight, and not
/// before: in the meantime each of the others has its turn.
pub proof fn law_frame_comes_round(current: int, frames: int, n: nat)
    requires
        0 <= current < frames,
        n <= frames,
    ensures
        frame_after(current, frames, n) == current <==> n == 0 || n == frames,
{
    law_frames_take_turns(current, frames, n);
    if current + n < frames {
        vstd::arithmetic::div_mod::lemma_small_mod((current + n) as nat, frames as nat);
    } else {
        vstd::arithmetic::div_mod::lemma_mod_sub_multiples_vanish(current + n, frames);
        if current + n - frames < frames {
            vstd::arithmetic::div_mod::lemma_small_mod((current + n - frames) as nat, frames as nat);
        }
    }
}

/// The objects of one frame fit together: the image that is asked for signals the semaphore that
/// the submission waits for; the submission signals the semaphore that the request to show the
/// image waits for, and the fence that is waited for before the frame is used again; the fence that
/// is waited for is the one that is reset; and what is submitted is the command buffer of the frame.
pub proof fn law_frame_is_synchronised(manager: VulkanManager, image_index: u32)
    requires
        manager.wf(),
        manager.max_frames_in_flight > 0,
    ensures
        ({
            let acquire = manager.next_frame_steps()[1].call;
            let wait = manager.wait_for_fence_steps()[0].call;
            let reset = manager.wait_for_fence_steps()[1].call;
            let submit = manager.submit_steps()[0].call;
            let present = manager.present_request(image_index);
            &&& acquire->AcquireNextImage_semaphore == submit->QueueSubmit_wait_semaphore
            &&& submit->QueueSubmit_signal_semaphore == present.wait_semaphore
            &&& submit->QueueSubmit_queue == present.queue
            &&& submit->QueueSubmit_commandbuffer == manager.frame_commandbuffer()
            &&& submit->QueueSubmit_fence == wait->WaitForFence_fence
            &&& wait->WaitForFence_fence == reset->ResetFence_fence
        }),
{
}

/// Frames that are not the same share no synchronisation object, if the objects were created
/// different.
pub proof fn law_frames_do_not_share(manager: VulkanManager, n: nat)
    requires
        manager.wf(),
        0 < n < manager.max_frames_in_flight,
        manager.image_acquire_semaphores@.no_duplicates(),
        manager.render_finished_semaphores@.no_duplicates(),
        manager.frame_resource_fences@.no_duplicates(),
        manager.commandbuffers@.no_duplicates(),
    ensures
        ({
            let later = VulkanManager {
                current_frame_index: frame_after(
                    manager.current_frame_index as int,
                    manager.max_frames_in_flight as int,
                    n,
                ) as u8,
                ..manager
            };
            &&& later.acquire_semaphore() != manager.acquire_semaphore()
            &&& later.finished_semaphore() != manager.finished_semaphore()
            &&& later.frame_fence() != manager.frame_fence()
            &&& later.frame_commandbuffer() != manager.frame_commandbuffer()
        }),
{
    law_frame_comes_round(
        manager.current_frame_index as int,
        manager.max_frames_in_flight as int,
        n,
    );
    law_frames_take_turns(
        manager.current_frame_index as int,
        manager.max_frames_in_flight as int,
        n,
    );
}

/// A swapchain that is replaced without a failure leaves the renderer as it was but for the
/// swapchain, which is the new one with its own framebuffers. The steps come in this order: the
/// device is idle before the former swapchain is destroyed, and that is done before the new one is
/// created.
pub proof fn law_recreation_replaces_only_the_swapchain<E>(
    manager: VulkanManager,
    swapchain: Swapchain,
    framebuffers: Framebuffers,
)
    ensures
        ({
            let waited = manager.after_recreation(Recreation::WaitIdle, RecreationReply::<E>::Done);
            let cleaned = waited.after_recreation(Recreation::Cleanup, RecreationReply::<E>::Done);
            let created = cleaned.after_recreation(
                Recreation::Init,
                RecreationReply::<E>::Swapchain(swapchain),
            );
            let last = cleaned.recreation_after(
                Recreation::Init,
                RecreationReply::<E>::Swapchain(swapchain),
            );
            let reply = RecreationReply::<E>::Framebuffers(framebuffers);
            &&& manager.recreation_after(Recreation::WaitIdle, RecreationReply::<E>::Done)
                == Recreation::<E>::Cleanup
            &&& waited.recreation_after(Recreation::Cleanup, RecreationReply::<E>::Done)
                == Recreation::<E>::Init
            &&& created.recreation_after(last, reply) == Recreation::<E>::Finished
            &&& created.after_recreation(last, reply) == VulkanManager {
                swapchain: Swapchain { framebuffers, ..swapchain },
                ..manager
            }
        }),
{
}

/// A swapchain that cannot be replaced leaves the error of the step that failed: to whoever asked
/// for the replacement it is the result, and where an image was to be shown it is what the renderer
/// gives up with. The swapchain that a failed step was to create or complete is not touched.
pub proof fn law_failed_recreation_names_its_error<E>(
    manager: VulkanManager,
    stage: Recreation<E>,
    error: E,
)
    requires
        answers(stage, RecreationReply::Failed(error)),
    ensures
        ({
            let reply = RecreationReply::Failed(error);
            let next = manager.recreation_after(stage, reply);
            &&& manager.after_recreation(stage, reply) == manager
            &&& next == if stage is WaitIdle {
                Recreation::Panicked(Failure::WaitBeforeRecreation, error)
            } else {
                Recreation::Failed(error)
            }
            &&& presentation_during(next) == Presentation::Panicked(
                if stage is WaitIdle {
                    Failure::WaitBeforeRecreation
                } else {
                    Failure::SwapchainRecreation
                },
                Some(error),
            )
        }),
{
}

/// Starting a frame cannot fail, and its result is the index of the image that the swapchain
/// answers with.
pub proof fn law_next_frame_gives_the_acquired_image(manager: VulkanManager, image_index: u32)
    ensures
        ({
            let steps = manager.next_frame_steps();
            let done = CallReply::Done;
            let image = CallReply::Image(image_index);
            &&& forall|i: int, reply: CallReply|
                0 <= i < steps.len() && #[trigger] steps[i].answered_by(reply) ==> {
                    ||| i == 0 && reply == done
                    ||| i == 1 && reply is Image
                }
            &&& steps[0].answered_by(done) && steps[1].answered_by(image)
            &&& unstarted(steps).after(done).after(image).outcome() == Some(
                Ok::<Option<u32>, (Failure, i32)>(Some(image_index)),
            )
        }),
{
}

/// A call with the reason to give up if it fails.
pub open spec fn or_give_up(call: DeviceCall, reason: Failure) -> Step {
    Step { call, on_failure: Some(reason) }
}

/// Whichever of the frames in flight is the current one, everything that is done for it is done
/// with its own objects, those at its number: its image is acquired with its semaphore, its fence is
/// waited for without a limit and then reset, its command buffer is submitted between its two
/// semaphores with its fence, and the image that is asked for is shown, and no other, once its
/// second semaphore is signalled.
pub proof fn law_frame_uses_its_own_objects(manager: VulkanManager, image_index: u32)
    requires
        manager.wf(),
        manager.max_frames_in_flight > 0,
    ensures
        ({
            let frame = manager.current_frame_index as int;
            let acquired = manager.image_acquire_semaphores@[frame];
            let finished = manager.render_finished_semaphores@[frame];
            let fence = manager.frame_resource_fences@[frame];
            &&& manager.next_frame_steps() == seq![
                Step { call: DeviceCall::NextDescriptorFrame, on_failure: None },
                Step {
                    call: DeviceCall::AcquireNextImage { semaphore: acquired },
                    on_failure: None,
                },
            ]
            &&& manager.wait_for_fence_steps() == seq![
                or_give_up(
                    DeviceCall::WaitForFence { fence, wait_all: true, timeout: u64::MAX },
                    Failure::FenceWaiting,
                ),
                or_give_up(DeviceCall::ResetFence { fence }, Failure::FenceReset),
            ]
            &&& manager.submit_steps() == seq![
                or_give_up(
                    DeviceCall::QueueSubmit {
                        queue: manager.graphics_queue,
                        wait_semaphore: acquired,
                        wait_stage: PipelineStage::TopOfPipe,
                        commandbuffer: manager.commandbuffers@[frame],
                        signal_semaphore: finished,
                        fence,
                    },
                    Failure::QueueSubmission,
                ),
            ]
            &&& manager.present_request(image_index).image_index == image_index
            &&& manager.present_request(image_index).swapchain == manager.swapchain.swapchain
            &&& manager.present_request(image_index).queue == manager.graphics_queue
            &&& manager.present_request(image_index).wait_semaphore == finished
            &&& manager.frame_commandbuffer() == manager.commandbuffers@[frame]
        }),
{
}

/// Requests to show different images are different, and which frame in flight is the current one
/// has no influence on the image that is shown.
pub proof fn law_shown_image_is_the_one_asked_for(
    manager: VulkanManager,
    frame: u8,
    first: u32,
    second: u32,
)
    requires
        manager.wf(),
        frame < manager.max_frames_in_flight,
    ensures
        ({
            let other = VulkanManager { current_frame_index: frame, ..manager };
            &&& first != second ==> manager.present_request(first) != manager.present_request(
                second,
            )
            &&& other.present_request(first).image_index == first
            &&& other.present_request(first).swapchain == manager.present_request(first).swapchain
        }),
{
}

/// A request to show an image that succeeds is the end, whether or not the swapchain fits well; the
/// code of an outdated swapchain leads to its replacement; every other code is fatal.
pub proof fn law_only_an_outdated_swapchain_is_replaced<E>(suboptimal: bool, code: i32)
    ensures
        presentation_after::<E>(Ok(suboptimal)) == Presentation::<E>::Finished,
        presentation_after::<E>(Err(code)) == if code == -1_000_001_004 {
            Presentation::<E>::Recreate(Recreation::WaitIdle)
        } else {
            Presentation::<E>::Panicked(Failure::Presentation, None)
        },
{
}

/// While an outdated swapchain is being replaced, showing the image waits for that, and it has
/// succeeded once the swapchain is replaced. The framebuffers are created for the two render passes
/// of the renderer.
pub proof fn law_showing_waits_for_the_replacement<E>(
    manager: VulkanManager,
    swapchain: Swapchain,
    renderpass: u64,
    renderpass_pp: u64,
)
    ensures
        presentation_during(Recreation::<E>::WaitIdle) == Presentation::Recreate(
            Recreation::<E>::WaitIdle,
        ),
        presentation_during(Recreation::<E>::Cleanup) == Presentation::Recreate(
            Recreation::<E>::Cleanup,
        ),
        presentation_during(Recreation::<E>::Init) == Presentation::Recreate(
            Recreation::<E>::Init,
        ),
        presentation_during(Recreation::<E>::CreateFramebuffers { renderpass, renderpass_pp })
            == Presentation::Recreate(
            Recreation::<E>::CreateFramebuffers { renderpass, renderpass_pp },
        ),
        presentation_during(Recreation::<E>::Finished) == Presentation::<E>::Finished,
        manager.recreation_after(
            Recreation::<E>::Init,
            RecreationReply::Swapchain(swapchain),
        ) == (Recreation::<E>::CreateFramebuffers {
            renderpass: manager.renderpass,
            renderpass_pp: manager.renderpass_pp,
        }),
{
}

} // verus!
