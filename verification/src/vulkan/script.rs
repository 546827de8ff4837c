//! Calls on the device that are made one after the other, and what a failure of one leads to.

use vstd::prelude::*;

use crate::vulkan::command::PipelineStage;

verus! {

/// A call on the device or on what was created with it.
#[derive(Clone, Copy, Debug, PartialEq, Eq)]
pub enum DeviceCall {
    /// Let the descriptor manager start its next frame.
    NextDescriptorFrame,
    /// Ask the swapchain for its next image; the semaphore is signalled when it can be used. The
    /// answer is the index of the image.
    AcquireNextImage { semaphore: u64 },
    /// Wait until a fence is signalled, for at most so many nanoseconds.
    WaitForFence { fence: u64, wait_all: bool, timeout: u64 },
    /// Make a fence unsignalled.
    ResetFence { fence: u64 },
    /// Hand a command buffer to a queue. It waits at a stage for one semaphore; when it is done it
    /// signals the other one and the fence.
    QueueSubmit {
        queue: u64,
        wait_semaphore: u64,
        wait_stage: PipelineStage,
        commandbuffer: u64,
        signal_semaphore: u64,
        fence: u64,
    },
    /// Wait until the device has nothing left to do.
    DeviceWaitIdle,
    /// Let go of the registered lighting pipelines.
    ClearLightingPipelines,
    /// Let go of the registered effects.
    ClearPPEffects,
    DestroySemaphore(u64),
    DestroyFence(u64),
    DestroyDescriptorManager,
    DestroyUniformBuffer,
    CleanupPools,
    DestroyRenderPass(u64),
    /// Destroy the swapchain with its images and framebuffers.
    CleanupSwapchain,
    DestroySampler(u64),
    DestroyDescriptorSetLayout(u64),
    DestroyPipelineLayout(u64),
    DropAllocator,
    DestroyDevice,
    DropSurface,
    DropDebugMessenger,
    DestroyInstance,
}

/// Why the renderer gives up.
#[derive(Clone, Copy, Debug, PartialEq, Eq)]
pub enum Failure {
    /// Waiting for the fence of a frame failed.
    FenceWaiting,
    /// Resetting the fence of a frame failed.
    FenceReset,
    /// A command buffer could not be submitted.
    QueueSubmission,
    /// Waiting for the device, on request, failed.
    WaitIdle,
    /// Waiting for the device before its swapchain is replaced failed.
    WaitBeforeRecreation,
    /// Waiting for the device before everything is destroyed failed.
    WaitBeforeTeardown,
    /// The swapchain could not be replaced.
    SwapchainRecreation,
    /// An image could not be shown, for another reason than an outdated swapchain.
    Presentation,
}

/// What the renderer says when it gives up.
pub open spec fn failure_message(failure: Failure) -> Seq<char> {
    match failure {
        Failure::FenceWaiting => "fence-waiting"@,
        Failure::FenceReset => "resetting fences"@,
        Failure::QueueSubmission => "queue submission"@,
        Failure::WaitIdle => "device_wait_idle() failed"@,
        Failure::WaitBeforeRecreation => "something went wrong while waiting"@,
        Failure::WaitBeforeTeardown => "something wrong while waiting"@,
        Failure::SwapchainRecreation => "swapchain recreation"@,
        Failure::Presentation => "unhandled queue presentation error"@,
    }
}

impl Failure {
    /// What the renderer says when it gives up.
    pub fn message(self) -> (message: &'static str)
        ensures
            message@ == failure_message(self),
    {
        match self {
            Failure::FenceWaiting => "fence-waiting",
            Failure::FenceReset => "resetting fences",
            Failure::QueueSubmission => "queue submission",
            Failure::WaitIdle => "device_wait_idle() failed",
            Failure::WaitBeforeRecreation => "something went wrong while waiting",
            Failure::WaitBeforeTeardown => "something wrong while waiting",
            Failure::SwapchainRecreation => "swapchain recreation",
            Failure::Presentation => "unhandled queue presentation error",
        }
    }
}

/// A call, and how the renderer gives up if it fails. Without that, the call cannot fail.
#[derive(Clone, Copy, Debug, PartialEq, Eq)]
pub struct Step {
    pub call: DeviceCall,
    pub on_failure: Option<Failure>,
}

/// A call that cannot fail.
pub open spec fn sure(call: DeviceCall) -> Step {
    Step { call, on_failure: None }
}

/// A call whose failure makes the renderer give up.
pub open spec fn vital(call: DeviceCall, failure: Failure) -> Step {
    Step { call, on_failure: Some(failure) }
}

impl Step {
    /// A call that cannot fail.
    pub fn sure(call: DeviceCall) -> (step: Step)
        ensures
            step == sure(call),
    {
        Step { call, on_failure: None }
    }

    /// A call whose failure makes the renderer give up.
    pub fn vital(call: DeviceCall, failure: Failure) -> (step: Step)
        ensures
            step == vital(call, failure),
    {
        Step { call, on_failure: Some(failure) }
    }
}

/// What became of a call.
#[derive(Clone, Copy, Debug, PartialEq, Eq)]
pub enum CallReply {
    Done,
    /// The index of the image that was acquired.
    Image(u32),
    /// The code of an error.
    Failed(i32),
}

/// Calls that are made one after the other: how many are done, which image was acquired, if one
/// was, and why and with which error the renderer gave up, if it did.
#[derive(Debug, PartialEq, Eq)]
pub struct Script {
    pub steps: Vec<Step>,
    pub done: usize,
    pub image: Option<u32>,
    pub failure: Option<(Failure, i32)>,
}

/// The state of a script.
pub struct ScriptState {
    pub steps: Seq<Step>,
    pub done: nat,
    pub image: Option<u32>,
    pub failure: Option<(Failure, i32)>,
}

impl View for Script {
    type V = ScriptState;

    open spec fn view(&self) -> ScriptState {
        ScriptState {
            steps: self.steps@,
            done: self.done as nat,
            image: self.image,
            failure: self.failure,
        }
    }
}

/// The state before the first of the given steps.
pub open spec fn unstarted(steps: Seq<Step>) -> ScriptState {
    ScriptState { steps, done: 0, image: None, failure: None }
}

impl Step {
    /// Whether a reply is one that a step can have: an image where one is asked for and nowhere
    /// else, and an error only of a call that can fail.
    pub open spec fn answered_by(self, reply: CallReply) -> bool {
        match reply {
            CallReply::Done => self.call !is AcquireNextImage,
            CallReply::Image(_) => self.call is AcquireNextImage,
            CallReply::Failed(_) => self.on_failure is Some,
        }
    }
}

impl ScriptState {
    /// The call to make next, or nothing at the end and after a failure.
    pub open spec fn request(self) -> Option<DeviceCall> {
        if self.failure is Some || self.done >= self.steps.len() {
            None
        } else {
            Some(self.steps[self.done as int].call)
        }
    }

    /// The state after the answer to the current call.
    pub open spec fn after(self, reply: CallReply) -> ScriptState {
        match reply {
            CallReply::Done => ScriptState { done: self.done + 1, ..self },
            CallReply::Image(index) => ScriptState {
                done: self.done + 1,
                image: Some(index),
                ..self
            },
            CallReply::Failed(code) => ScriptState {
                failure: match self.steps[self.done as int].on_failure {
                    Some(failure) => Some((failure, code)),
                    None => None,
                },
                ..self
            },
        }
    }

    /// How the script ended, or nothing while it goes on: with the image that was acquired, if one
    /// was, or with the reason to give up and the error behind it.
    pub open spec fn outcome(self) -> Option<Result<Option<u32>, (Failure, i32)>> {
        match self.failure {
            Some(failure) => Some(Err(failure)),
            None => if self.done >= self.steps.len() {
                Some(Ok(self.image))
            } else {
                None
            },
        }
    }
}

impl Script {
    /// The given steps, before the first of them.
    pub fn new(steps: Vec<Step>) -> (script: Script)
        ensures
            script@ == unstarted(steps@),
    {
        Script { steps, done: 0, image: None, failure: None }
    }

    /// The call to make next, or nothing at the end and after a failure.
    pub fn next(&self) -> (call: Option<DeviceCall>)
        ensures
            call == self@.request(),
    {
        if self.failure.is_some() || self.done >= self.steps.len() {
            None
        } else {
            Some(self.steps[self.done].call)
        }
    }

    /// Takes the answer to the current call.
    pub fn reply(&mut self, reply: CallReply)
        requires
            old(self)@.request() is Some,
            old(self)@.steps[old(self)@.done as int].answered_by(reply),
        ensures
            final(self)@ == old(self)@.after(reply),
    {
        assert(self.done < self.steps.len());
        match reply {
            CallReply::Done => {
                self.done += 1;
            },
            CallReply::Image(index) => {
                self.image = Some(index);
                self.done += 1;
            },
            CallReply::Failed(code) => {
                if let Some(failure) = self.steps[self.done].on_failure {
                    self.failure = Some((failure, code));
                }
            },
        }
    }

    /// How the script ended, or nothing while it goes on.
    pub fn outcome(&self) -> (outcome: Option<Result<Option<u32>, (Failure, i32)>>)
        ensures
            outcome == self@.outcome(),
    {
        match self.failure {
            Some(failure) => Some(Err(failure)),
            None => {
                if self.done >= self.steps.len() {
                    Some(Ok(self.image))
                } else {
                    None
                }
            },
        }
    }
}

/// The state after a run of answers.
pub open spec fn after_replies(start: ScriptState, replies: Seq<CallReply>) -> ScriptState
    decreases replies.len(),
{
    if replies.len() == 0 {
        start
    } else {
        after_replies(start, replies.drop_last()).after(replies.last())
    }
}

/// The image that was acquired last among some answers.
pub open spec fn acquired(replies: Seq<CallReply>) -> Option<u32>
    decreases replies.len(),
{
    if replies.len() == 0 {
        None
    } else {
        match replies.last() {
            CallReply::Image(index) => Some(index),
            _ => acquired(replies.drop_last()),
        }
    }
}

/// As long as no call fails, the calls of a script are made one after the other, each once and in
/// order, until none is left. Then the script has ended with the image that was acquired.
pub proof fn law_script_makes_every_call(steps: Seq<Step>, replies: Seq<CallReply>)
    requires
        replies.len() <= steps.len(),
        forall|i: int| 0 <= i < replies.len() ==> !(#[trigger] replies[i] is Failed),
    ensures
        after_replies(unstarted(steps), replies) == (ScriptState {
            steps,
            done: replies.len(),
            image: acquired(replies),
            failure: None,
        }),
        replies.len() < steps.len() ==> after_replies(unstarted(steps), replies).request() == Some(
            steps[replies.len() as int].call,
        ),
        replies.len() == steps.len() ==> {
            &&& after_replies(unstarted(steps), replies).request() is None
            &&& after_replies(unstarted(steps), replies).outcome() == Some(
                Ok::<Option<u32>, (Failure, i32)>(acquired(replies)),
            )
        },
    decreases replies.len(),
{
    if replies.len() > 0 {
        law_script_makes_every_call(steps, replies.drop_last());
        assert(!(replies.last() is Failed));
    }
}

/// A call that fails is the last one of its script, and the renderer gives up for the reason that
/// belongs to that call, with the error of that call.
pub proof fn law_script_stops_at_failure(steps: Seq<Step>, replies: Seq<CallReply>, code: i32)
    requires
        replies.len() < steps.len(),
        forall|i: int| 0 <= i < replies.len() ==> !(#[trigger] replies[i] is Failed),
        steps[replies.len() as int].on_failure is Some,
    ensures
        ({
            let failed = after_replies(unstarted(steps), replies.push(CallReply::Failed(code)));
            &&& failed.request() is None
            &&& failed.outcome() == Some(
                Err::<Option<u32>, (Failure, i32)>(
                    (steps[replies.len() as int].on_failure->0, code),
                ),
            )
        }),
{
    law_script_makes_every_call(steps, replies);
    assert(replies.push(CallReply::Failed(code)).drop_last() == replies);
}

} // verus!
