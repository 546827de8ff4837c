//! What holds of the fences and semaphores from frame to frame.

use vstd::prelude::*;

use crate::vulkan::manager::VulkanManager;
use crate::vulkan::presentation::PresentRequest;
use crate::vulkan::script::{DeviceCall, Step};
use crate::vulkan::setup::{Setup, SetupCall, SetupStage};

verus! {

/// What is known of a fence.
pub enum FenceState {
    Unsignaled,
    /// Work has been submitted that will signal it.
    Pending,
    Signaled,
}

/// What is known of the fences and semaphores: the semaphores in the set are signalled, or will be
/// by work that has been handed over.
pub struct SyncState {
    pub fences: Map<u64, FenceState>,
    pub signaled: Set<u64>,
}

/// The state after a call, or nothing if the call is not allowed or would never return: a fence is
/// waited for only if something signals it, and submitted only when reset; a semaphore is
/// signalled only when nothing has signalled it yet, and waited for only when something has.
pub open spec fn sync_after(state: SyncState, call: DeviceCall) -> Option<SyncState> {
    match call {
        DeviceCall::AcquireNextImage { semaphore } => if state.signaled.contains(semaphore) {
            None
        } else {
            Some(SyncState { signaled: state.signaled.insert(semaphore), ..state })
        },
        DeviceCall::WaitForFence { fence, wait_all: _, timeout: _ } => if state.fences[fence]
            is Unsignaled {
            None
        } else {
            Some(
                SyncState {
                    fences: state.fences.insert(fence, FenceState::Signaled),
                    ..state
                },
            )
        },
        DeviceCall::ResetFence { fence } => if state.fences[fence] is Pending {
            None
        } else {
            Some(
                SyncState {
                    fences: state.fences.insert(fence, FenceState::Unsignaled),
                    ..state
                },
            )
        },
        DeviceCall::QueueSubmit {
            queue: _,
            wait_semaphore,
            wait_stage: _,
            commandbuffer: _,
            signal_semaphore,
            fence,
        } => {
            let waited = state.signaled.remove(wait_semaphore);
            if !state.signaled.contains(wait_semaphore) || waited.contains(signal_semaphore)
                || !(state.fences[fence] is Unsignaled) {
                None
            } else {
                Some(
                    SyncState {
                        fences: state.fences.insert(fence, FenceState::Pending),
                        signaled: waited.insert(signal_semaphore),
                    },
                )
            }
        },
        _ => Some(state),
    }
}

/// The state after a run of calls.
pub open spec fn sync_after_all(state: SyncState, steps: Seq<Step>) -> Option<SyncState>
    decreases steps.len(),
{
    if steps.len() == 0 {
        Some(state)
    } else {
        match sync_after_all(state, steps.drop_last()) {
            Some(before) => sync_after(before, steps.last().call),
            None => None,
        }
    }
}

/// The state after a request to show an image, or nothing if nothing signals what it waits for.
pub open spec fn sync_after_present(state: SyncState, request: PresentRequest) -> Option<
    SyncState,
> {
    if state.signaled.contains(request.wait_semaphore) {
        Some(SyncState { signaled: state.signaled.remove(request.wait_semaphore), ..state })
    } else {
        None
    }
}

/// Whether the next frame can start, whichever it is: no fence of a frame is one that nothing
/// signals, and no semaphore is left signalled.
pub open spec fn between_frames(manager: VulkanManager, state: SyncState) -> bool {
    &&& forall|i: int|
        0 <= i < manager.frame_resource_fences@.len() ==> !(
        state.fences[#[trigger] manager.frame_resource_fences@[i]] is Unsignaled)
    &&& state.signaled == Set::<u64>::empty()
}

/// A frame can always start: when the calls of one are made in turn, none of them waits for
/// something that never comes, none uses what is still in use, and the next frame can start again.
pub proof fn law_frame_follows_frame(manager: VulkanManager, image_index: u32, state: SyncState)
    requires
        manager.wf(),
        manager.max_frames_in_flight > 0,
        between_frames(manager, state),
    ensures
        ({
            let steps = manager.next_frame_steps() + manager.wait_for_fence_steps()
                + manager.submit_steps();
            &&& sync_after_all(state, steps) matches Some(submitted)
            &&& sync_after_present(submitted, manager.present_request(image_index)) matches Some(
                shown,
            )
            &&& between_frames(manager, shown)
        }),
{
    let steps = manager.next_frame_steps() + manager.wait_for_fence_steps()
        + manager.submit_steps();
    assert(!(state.fences[manager.frame_fence()] is Unsignaled));
    assert(steps.take(5) == steps);
    assert(steps.take(5).drop_last() == steps.take(4));
    assert(steps.take(4).drop_last() == steps.take(3));
    assert(steps.take(3).drop_last() == steps.take(2));
    assert(steps.take(2).drop_last() == steps.take(1));
    assert(steps.take(1).drop_last() == Seq::<Step>::empty());
    reveal_with_fuel(sync_after_all, 6);
    let submitted = sync_after_all(state, steps)->0;
    let shown = sync_after_present(submitted, manager.present_request(image_index))->0;
    assert(shown.signaled =~= Set::<u64>::empty());
}

/// The fences of the frames are created signalled, so that the first frame of each can start.
pub proof fn law_fences_start_signaled<E>(setup: Setup<E>)
    requires
        setup.stage == SetupStage::FrameFence,
    ensures
        setup.call() == Some(SetupCall::CreateFence { signaled: true }),
{
}

} // verus!
