//! One turn of the program's main loop.

use vstd::prelude::*;

verus! {

/// The main loop of a program that renders.
#[derive(Clone, Copy, Debug, PartialEq, Eq)]
pub struct GameLoop {}

/// That a main loop could not be created, which does not happen.
#[derive(Clone, Copy, Debug, PartialEq, Eq)]
pub struct GameLoopError {}

/// What is done for a frame.
#[allow(inconsistent_fields)]
#[derive(Clone, Copy, Debug, PartialEq, Eq)]
pub enum FrameAction {
    /// Write the lights of the scene to their buffer.
    UpdateLightBuffer,
    /// Ask the swapchain for its next image. The answer is its index.
    AcquireNextImage,
    /// Wait until the resources of the frame are free.
    WaitForFence,
    /// Write the instances of the model at this position to their buffer. May fail.
    UpdateInstanceBuffer { model: usize },
    /// Record the command buffer for this image. May fail.
    UpdateCommandbuffer { image_index: usize },
    /// Submit the command buffer for this image. The answer is the semaphore that is signalled
    /// when it has been drawn.
    Render { image_index: u32 },
    /// Show this image once the semaphore is signalled.
    Present { image_index: u32, semaphore_finished: u64 },
}

/// Why the program gives up in the middle of a frame.
#[derive(Clone, Copy, Debug, PartialEq, Eq)]
pub enum FrameFailure {
    /// The instances of a model could not be written.
    InstanceBuffer,
    /// The command buffer could not be recorded.
    Commandbuffer,
}

impl FrameFailure {
    /// What the program says when it gives up, where it says anything but the error itself.
    pub fn message(self) -> (message: Option<&'static str>)
        ensures
            self is InstanceBuffer ==> message is None,
            self is Commandbuffer ==> message is Some && message->0@
                == "updating the command buffer"@,
    {
        match self {
            FrameFailure::InstanceBuffer => None,
            FrameFailure::Commandbuffer => Some("updating the command buffer"),
        }
    }
}

/// What became of what was done for a frame.
#[derive(Debug, PartialEq, Eq)]
pub enum FrameReply<E> {
    Done,
    Image(u32),
    Rendered { semaphore_finished: u64 },
    /// The error of the action.
    Failed(E),
}

/// Where a frame stands: what to do next, or how it ended.
#[derive(Debug, PartialEq, Eq)]
pub enum FrameStage<E> {
    Lights,
    Acquire,
    Wait { image_index: u32 },
    /// The instances of the models before this one have been written.
    Instances { image_index: u32, model: usize },
    Record { image_index: u32 },
    Render { image_index: u32 },
    Present { image_index: u32, semaphore_finished: u64 },
    Finished,
    /// The program gives up because of this error.
    Panicked(FrameFailure, E),
}

impl<E> FrameStage<E> {
    /// What to do next, or nothing once the frame has ended.
    pub open spec fn wanted(self) -> Option<FrameAction> {
        match self {
            FrameStage::Lights => Some(FrameAction::UpdateLightBuffer),
            FrameStage::Acquire => Some(FrameAction::AcquireNextImage),
            FrameStage::Wait { .. } => Some(FrameAction::WaitForFence),
            FrameStage::Instances { image_index: _, model } => Some(
                FrameAction::UpdateInstanceBuffer { model },
            ),
            FrameStage::Record { image_index } => Some(
                FrameAction::UpdateCommandbuffer { image_index: image_index as usize },
            ),
            FrameStage::Render { image_index } => Some(FrameAction::Render { image_index }),
            FrameStage::Present { image_index, semaphore_finished } => Some(
                FrameAction::Present { image_index, semaphore_finished },
            ),
            FrameStage::Finished => None,
            FrameStage::Panicked(..) => None,
        }
    }

    /// Whether a reply is one that the current action can have.
    pub open spec fn answered_by(self, reply: FrameReply<E>) -> bool {
        match self {
            FrameStage::Acquire => reply is Image,
            FrameStage::Instances { .. } | FrameStage::Record { .. } => reply is Done
                || reply is Failed,
            FrameStage::Render { .. } => reply is Rendered,
            FrameStage::Finished | FrameStage::Panicked(..) => false,
            _ => reply is Done,
        }
    }

    /// Where a frame goes once the instances of the models before `model` have been written.
    pub open spec fn instances_from(image_index: u32, model: usize, models: usize) -> FrameStage<E> {
        if model < models {
            FrameStage::Instances { image_index, model }
        } else {
            FrameStage::Record { image_index }
        }
    }

    /// Where a frame stands after the current action, where the program has so many models.
    pub open spec fn after(self, models: usize, reply: FrameReply<E>) -> FrameStage<E> {
        match (self, reply) {
            (FrameStage::Lights, _) => FrameStage::Acquire,
            (FrameStage::Acquire, FrameReply::Image(image_index)) => FrameStage::Wait {
                image_index,
            },
            (FrameStage::Wait { image_index }, _) => FrameStage::instances_from(
                image_index,
                0,
                models,
            ),
            (FrameStage::Instances { .. }, FrameReply::Failed(error)) => FrameStage::Panicked(
                FrameFailure::InstanceBuffer,
                error,
            ),
            (FrameStage::Instances { image_index, model }, _) => FrameStage::instances_from(
                image_index,
                (model + 1) as usize,
                models,
            ),
            (FrameStage::Record { .. }, FrameReply::Failed(error)) => FrameStage::Panicked(
                FrameFailure::Commandbuffer,
                error,
            ),
            (FrameStage::Record { image_index }, _) => FrameStage::Render { image_index },
            (
                FrameStage::Render { image_index },
                FrameReply::Rendered { semaphore_finished },
            ) => FrameStage::Present { image_index, semaphore_finished },
            (FrameStage::Present { .. }, _) => FrameStage::Finished,
            _ => self,
        }
    }

    /// Whether a stage belongs to a frame of a program with so many models.
    pub open spec fn fits(self, models: usize) -> bool {
        self matches FrameStage::Instances { image_index: _, model } ==> model < models
    }

    /// What to do next, or nothing once the frame has ended.
    pub fn action(&self) -> (action: Option<FrameAction>)
        ensures
            action == self.wanted(),
    {
        match *self {
            FrameStage::Lights => Some(FrameAction::UpdateLightBuffer),
            FrameStage::Acquire => Some(FrameAction::AcquireNextImage),
            FrameStage::Wait { .. } => Some(FrameAction::WaitForFence),
            FrameStage::Instances { image_index: _, model } => Some(
                FrameAction::UpdateInstanceBuffer { model },
            ),
            FrameStage::Record { image_index } => Some(
                FrameAction::UpdateCommandbuffer { image_index: image_index as usize },
            ),
            FrameStage::Render { image_index } => Some(FrameAction::Render { image_index }),
            FrameStage::Present { image_index, semaphore_finished } => Some(
                FrameAction::Present { image_index, semaphore_finished },
            ),
            FrameStage::Finished => None,
            FrameStage::Panicked(..) => None,
        }
    }
}

impl GameLoop {
    /// A main loop. This does not fail.
    pub fn new() -> (game_loop: Result<GameLoop, GameLoopError>)
        ensures
            game_loop == Ok::<GameLoop, GameLoopError>(GameLoop {  }),
    {
        Ok(GameLoop {  })
    }

    /// Prepares the loop. There is nothing to prepare.
    pub fn init(&self) {
    }

    /// Takes what became of the current action of a frame, the first of which belongs to
    /// `FrameStage::Lights`, and says where the frame stands: the lights are written, an image is
    /// acquired, its resources are waited for, the instances of each model are written, the
    /// command buffer is recorded and submitted, and the image is shown.
    pub fn update<E>(&self, models: usize, stage: FrameStage<E>, reply: FrameReply<E>) -> (next:
        FrameStage<E>)
        requires
            stage.fits(models),
            stage.answered_by(reply),
        ensures
            next == stage.after(models, reply),
            next.fits(models),
    {
        match (stage, reply) {
            (FrameStage::Lights, _) => FrameStage::Acquire,
            (FrameStage::Acquire, FrameReply::Image(image_index)) => FrameStage::Wait {
                image_index,
            },
            (FrameStage::Wait { image_index }, _) => {
                if 0 < models {
                    FrameStage::Instances { image_index, model: 0 }
                } else {
                    FrameStage::Record { image_index }
                }
            },
            (FrameStage::Instances { .. }, FrameReply::Failed(error)) => FrameStage::Panicked(
                FrameFailure::InstanceBuffer,
                error,
            ),
            (FrameStage::Instances { image_index, model }, _) => {
                if model + 1 < models {
                    FrameStage::Instances { image_index, model: model + 1 }
                } else {
                    FrameStage::Record { image_index }
                }
            },
            (FrameStage::Record { .. }, FrameReply::Failed(error)) => FrameStage::Panicked(
                FrameFailure::Commandbuffer,
                error,
            ),
            (FrameStage::Record { image_index }, _) => FrameStage::Render { image_index },
            (
                FrameStage::Render { image_index },
                FrameReply::Rendered { semaphore_finished },
            ) => FrameStage::Present { image_index, semaphore_finished },
            (FrameStage::Present { .. }, _) => FrameStage::Finished,
            (stage, _) => stage,
        }
    }
}

/// What a frame without a failure does, in order.
pub open spec fn frame_actions(models: usize, image_index: u32, semaphore_finished: u64) -> Seq<
    FrameAction,
> {
    seq![
        FrameAction::UpdateLightBuffer,
        FrameAction::AcquireNextImage,
        FrameAction::WaitForFence,
    ] + Seq::new(
        models as nat,
        |i: int| FrameAction::UpdateInstanceBuffer { model: i as usize },
    ) + seq![
        FrameAction::UpdateCommandbuffer { image_index: image_index as usize },
        FrameAction::Render { image_index },
        FrameAction::Present { image_index, semaphore_finished },
    ]
}

/// The reply of an action that succeeds, with the given image and semaphore.
pub open spec fn success<E>(
    stage: FrameStage<E>,
    image_index: u32,
    semaphore_finished: u64,
) -> FrameReply<E> {
    match stage {
        FrameStage::Acquire => FrameReply::Image(image_index),
        FrameStage::Render { .. } => FrameReply::Rendered { semaphore_finished },
        _ => FrameReply::Done,
    }
}

/// Where a frame stands after `k` actions that succeeded.
pub open spec fn stage_after<E>(
    models: usize,
    image_index: u32,
    semaphore_finished: u64,
    k: nat,
) -> FrameStage<E>
    decreases k,
{
    if k == 0 {
        FrameStage::Lights
    } else {
        let before = stage_after::<E>(models, image_index, semaphore_finished, (k - 1) as nat);
        before.after(models, success(before, image_index, semaphore_finished))
    }
}

/// Without a failure a frame does what it has to do in order: lights, image, fence, each model
/// once, recording, submission, and showing the image that was acquired once the submission has
/// signalled its semaphore. Then it is finished.
pub proof fn law_frame_runs_in_order<E>(
    models: usize,
    image_index: u32,
    semaphore_finished: u64,
    k: nat,
)
    requires
        k <= models + 6,
    ensures
        frame_actions(models, image_index, semaphore_finished).len() == models + 6,
        k < models + 6 ==> stage_after::<E>(models, image_index, semaphore_finished, k).wanted() == Some(
            frame_actions(models, image_index, semaphore_finished)[k as int],
        ),
        k == models + 6 ==> stage_after::<E>(models, image_index, semaphore_finished, k)
            == FrameStage::<E>::Finished,
        stage_after::<E>(models, image_index, semaphore_finished, k).fits(models),
        k < models + 6 ==> stage_after::<E>(
            models,
            image_index,
            semaphore_finished,
            k,
        ).answered_by(
            success(
                stage_after::<E>(models, image_index, semaphore_finished, k),
                image_index,
                semaphore_finished,
            ),
        ),
{
    lemma_stage_after::<E>(models, image_index, semaphore_finished, k);
}

proof fn lemma_stage_after<E>(models: usize, image_index: u32, semaphore_finished: u64, k: nat)
    requires
        k <= models + 6,
    ensures
        stage_after::<E>(models, image_index, semaphore_finished, k) == if k == 0 {
            FrameStage::<E>::Lights
        } else if k == 1 {
            FrameStage::Acquire
        } else if k == 2 {
            FrameStage::Wait { image_index }
        } else if k < models + 3 {
            FrameStage::Instances { image_index, model: (k - 3) as usize }
        } else if k == models + 3 {
            FrameStage::Record { image_index }
        } else if k == models + 4 {
            FrameStage::Render { image_index }
        } else if k == models + 5 {
            FrameStage::Present { image_index, semaphore_finished }
        } else {
            FrameStage::Finished
        },
    decreases k,
{
    if k > 0 {
        lemma_stage_after::<E>(models, image_index, semaphore_finished, (k - 1) as nat);
    }
}

/// An action that fails is the last one of its frame, and the program gives up for the reason that
/// belongs to that action, with the error of that action.
pub proof fn law_frame_stops_at_failure<E>(models: usize, stage: FrameStage<E>, error: E)
    requires
        stage.answered_by(FrameReply::Failed(error)),
    ensures
        stage.after(models, FrameReply::Failed(error)) == FrameStage::Panicked(
            if stage is Record {
                FrameFailure::Commandbuffer
            } else {
                FrameFailure::InstanceBuffer
            },
            error,
        ),
        stage.after(models, FrameReply::Failed(error)).wanted() is None,
{
}

/// The image that was acquired is the one that a frame records, submits and shows, the semaphore
/// that the submission answers with is the one that showing waits for, and between the wait and the
/// recording the instances of each model are written, in order. After `k` actions, this is the next
/// one.
pub proof fn law_frame_keeps_its_image<E>(
    models: usize,
    image_index: u32,
    semaphore_finished: u64,
    k: nat,
)
    requires
        k <= models + 6,
    ensures
        stage_after::<E>(models, image_index, semaphore_finished, k).wanted() == if k == 0 {
            Some(FrameAction::UpdateLightBuffer)
        } else if k == 1 {
            Some(FrameAction::AcquireNextImage)
        } else if k == 2 {
            Some(FrameAction::WaitForFence)
        } else if k < models + 3 {
            Some(FrameAction::UpdateInstanceBuffer { model: (k - 3) as usize })
        } else if k == models + 3 {
            Some(FrameAction::UpdateCommandbuffer { image_index: image_index as usize })
        } else if k == models + 4 {
            Some(FrameAction::Render { image_index })
        } else if k == models + 5 {
            Some(FrameAction::Present { image_index, semaphore_finished })
        } else {
            None
        },
{
    lemma_stage_after::<E>(models, image_index, semaphore_finished, k);
}

/// Every action leads on by its own answer alone: the image of the answer is kept from the
/// acquisition on, the semaphore of the answer from the submission on, and nothing else changes them.
pub proof fn law_frame_goes_on_with_the_answers<E>(
    models: usize,
    image_index: u32,
    model: usize,
    semaphore: u64,
)
    requires
        model < models,
    ensures
        ({
            let lights: FrameStage<E> = FrameStage::Lights;
            let acquire: FrameStage<E> = FrameStage::Acquire;
            let wait: FrameStage<E> = FrameStage::Wait { image_index };
            let first: FrameStage<E> = FrameStage::Instances { image_index, model: 0 };
            let instances: FrameStage<E> = FrameStage::Instances { image_index, model };
            let following: FrameStage<E> = FrameStage::Instances {
                image_index,
                model: (model + 1) as usize,
            };
            let recording: FrameStage<E> = FrameStage::Record { image_index };
            let render: FrameStage<E> = FrameStage::Render { image_index };
            let present: FrameStage<E> = FrameStage::Present {
                image_index,
                semaphore_finished: semaphore,
            };
            &&& lights.after(models, FrameReply::Done) == acquire
            &&& acquire.after(models, FrameReply::Image(image_index)) == wait
            &&& wait.after(models, FrameReply::Done) == first
            &&& wait.after(0, FrameReply::Done) == recording
            &&& instances.after(models, FrameReply::Done) == if model + 1 < models {
                following
            } else {
                recording
            }
            &&& recording.after(models, FrameReply::Done) == render
            &&& render.after(models, FrameReply::Rendered { semaphore_finished: semaphore })
                == present
            &&& present.after(models, FrameReply::Done) is Finished
        }),
{
}

} // verus!
