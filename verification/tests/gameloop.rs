use vulkan_frames::gameloop::{FrameAction, FrameFailure, FrameReply, FrameStage, GameLoop};

fn run(models: usize) -> Vec<FrameAction> {
    let game_loop = GameLoop::new().unwrap();
    game_loop.init();
    let mut stage = FrameStage::<u32>::Lights;
    let mut actions = vec![];
    while let Some(action) = stage.action() {
        actions.push(action);
        let reply = match action {
            FrameAction::AcquireNextImage => FrameReply::Image(2),
            FrameAction::Render { .. } => FrameReply::Rendered { semaphore_finished: 77 },
            _ => FrameReply::Done,
        };
        stage = game_loop.update(models, stage, reply);
    }
    assert_eq!(stage, FrameStage::Finished);
    actions
}

#[test]
fn a_frame_runs_in_order() {
    assert_eq!(
        run(2),
        vec![
            FrameAction::UpdateLightBuffer,
            FrameAction::AcquireNextImage,
            FrameAction::WaitForFence,
            FrameAction::UpdateInstanceBuffer { model: 0 },
            FrameAction::UpdateInstanceBuffer { model: 1 },
            FrameAction::UpdateCommandbuffer { image_index: 2 },
            FrameAction::Render { image_index: 2 },
            FrameAction::Present { image_index: 2, semaphore_finished: 77 },
        ]
    );
}

#[test]
fn a_frame_without_models_has_no_instances() {
    assert_eq!(run(0).len(), 6);
}

#[test]
fn a_failed_instance_buffer_ends_the_frame() {
    let game_loop = GameLoop::new().unwrap();
    let stage = FrameStage::Instances { image_index: 1, model: 0 };
    let next = game_loop.update(3, stage, FrameReply::Failed("full"));
    assert_eq!(next, FrameStage::Panicked(FrameFailure::InstanceBuffer, "full"));
    assert_eq!(next.action(), None);
    assert_eq!(FrameFailure::InstanceBuffer.message(), None);
}

#[test]
fn a_failed_recording_ends_the_frame() {
    let game_loop = GameLoop::new().unwrap();
    let next = game_loop.update(3, FrameStage::Record { image_index: 1 }, FrameReply::Failed(-2));
    assert_eq!(next, FrameStage::Panicked(FrameFailure::Commandbuffer, -2));
    assert_eq!(next.action(), None);
    assert_eq!(FrameFailure::Commandbuffer.message(), Some("updating the command buffer"));
}
