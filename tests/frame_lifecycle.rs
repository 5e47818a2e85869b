use cobalt_rendering::{
    Frame, FrameCommand, FrameError, GeometryRenderer, Relation, Target, SUBMISSION_BACKLOG,
};

fn started_target(history: u32) -> Target<u32, &'static str> {
    let mut target = Target::new(1280, 720);
    for i in 0..history {
        target.keep_submission(i);
    }
    target
}

#[test]
fn new_target_is_empty() {
    let target: Target<u32, u8> = Target::new(1280, 720);
    assert_eq!(target.size(), (1280, 720));
    assert!(target.submissions().is_empty());
    assert!(target.queued_texture_copies().is_empty());
}

#[test]
fn start_frame_evicts_oldest_submissions() {
    let mut target = started_target(6);
    let frame = target.start_frame("framebuffer", 1, 100);
    assert_eq!(target.submissions(), &vec![3, 4, 5]);
    assert!(target.submissions().len() < SUBMISSION_BACKLOG);
    assert_eq!(frame.image_num, 1);
    assert_eq!(frame.future, Some(100));
    assert_eq!(frame.framebuffer, "framebuffer");
    assert!(frame.commands.is_empty());
}

#[test]
fn start_frame_evicts_at_exactly_the_backlog() {
    let mut target = started_target(4);
    target.start_frame((), 0, 100);
    assert_eq!(target.submissions(), &vec![1, 2, 3]);
}

#[test]
fn start_frame_keeps_a_short_history() {
    let mut target = started_target(3);
    target.start_frame((), 0, 100);
    assert_eq!(target.submissions(), &vec![0, 1, 2]);
    let mut empty = started_target(0);
    empty.start_frame((), 0, 100);
    assert!(empty.submissions().is_empty());
}

#[test]
fn history_stays_bounded_over_many_frames() {
    let mut target = started_target(0);
    let renderer = GeometryRenderer::new(());
    for n in 0..20u32 {
        let mut frame = target.start_frame((), 0, n);
        assert!(target.submissions().len() < SUBMISSION_BACKLOG);
        renderer.build_command_buffer(&mut frame, &vec![Some(Relation::In)]);
        let submission = target.finish_frame(&mut frame).unwrap();
        target.keep_submission(submission.future);
        assert!(target.submissions().len() <= SUBMISSION_BACKLOG);
    }
    assert_eq!(target.submissions(), &vec![16, 17, 18, 19]);
}

#[test]
fn start_frame_drains_uploads_last_queued_first() {
    let mut target = started_target(0);
    target.queue_texture_copy("a");
    target.queue_texture_copy("b");
    target.queue_texture_copy("c");
    assert_eq!(target.queued_texture_copies(), &vec!["a", "b", "c"]);
    let frame = target.start_frame((), 2, 7);
    assert_eq!(
        frame.commands,
        vec![
            FrameCommand::CopyBufferToImage("c"),
            FrameCommand::CopyBufferToImage("b"),
            FrameCommand::CopyBufferToImage("a"),
        ]
    );
    assert!(target.queued_texture_copies().is_empty());
}

#[test]
fn uploads_queued_mid_frame_wait_for_the_next_frame() {
    let mut target = started_target(0);
    target.queue_texture_copy("early");
    let first = target.start_frame((), 0, 1);
    target.queue_texture_copy("late");
    assert_eq!(first.commands, vec![FrameCommand::CopyBufferToImage("early")]);
    let second = target.start_frame((), 1, 2);
    assert_eq!(second.commands, vec![FrameCommand::CopyBufferToImage("late")]);
}

#[test]
fn geometry_pass_skips_entities_outside_the_frustum() {
    let renderer = GeometryRenderer::new("sampler");
    let mut frame: Frame<(), u32, &str> =
        Frame { framebuffer: (), image_num: 0, future: Some(1), commands: Vec::new() };
    let world = vec![Some(Relation::In), None, Some(Relation::Out), Some(Relation::Cross)];
    renderer.build_command_buffer(&mut frame, &world);
    assert_eq!(
        frame.commands,
        vec![
            FrameCommand::BeginGeometryPass,
            FrameCommand::DrawEntity(0),
            FrameCommand::DrawEntity(3),
            FrameCommand::EndGeometryPass,
        ]
    );
    assert_eq!(frame.future, Some(1));
    assert_eq!(renderer.linear_sampler, "sampler");
}

#[test]
fn geometry_pass_of_an_empty_world_only_clears() {
    let renderer = GeometryRenderer::new(());
    let mut frame: Frame<(), u32, u8> =
        Frame { framebuffer: (), image_num: 0, future: Some(1), commands: Vec::new() };
    renderer.build_command_buffer(&mut frame, &vec![None, Some(Relation::Out)]);
    assert_eq!(frame.commands, vec![FrameCommand::BeginGeometryPass, FrameCommand::EndGeometryPass]);
}

#[test]
fn uploads_come_before_the_geometry_pass() {
    let mut target = started_target(0);
    target.queue_texture_copy("albedo");
    target.queue_texture_copy("normal");
    let mut frame = target.start_frame((), 0, 9);
    GeometryRenderer::new(()).build_command_buffer(&mut frame, &vec![Some(Relation::Cross)]);
    let submission = target.finish_frame(&mut frame).unwrap();
    assert_eq!(
        submission.commands,
        vec![
            FrameCommand::CopyBufferToImage("normal"),
            FrameCommand::CopyBufferToImage("albedo"),
            FrameCommand::BeginGeometryPass,
            FrameCommand::DrawEntity(0),
            FrameCommand::EndGeometryPass,
        ]
    );
}

#[test]
fn finishing_a_frame_twice_fails() {
    let mut target = started_target(0);
    let mut frame = target.start_frame("fb", 3, 42);
    assert!(!frame.is_finished());
    let first = target.finish_frame(&mut frame).unwrap();
    assert_eq!(first.future, 42);
    assert_eq!(first.image_num, 3);
    assert!(frame.is_finished());
    assert!(frame.commands.is_empty());
    let second = target.finish_frame(&mut frame);
    assert!(matches!(second, Err(FrameError::AlreadyFinished)));
    assert_eq!(frame.framebuffer, "fb");
    assert_eq!(frame.image_num, 3);
}

#[test]
fn finish_on_the_frame_itself_fails_the_second_time() {
    let mut frame: Frame<(), u8, u8> =
        Frame { framebuffer: (), image_num: 0, future: Some(5), commands: Vec::new() };
    assert!(frame.finish().is_ok());
    assert!(matches!(frame.finish(), Err(FrameError::AlreadyFinished)));
}

#[test]
fn keep_submission_appends_to_the_history() {
    let mut target = started_target(2);
    target.keep_submission(9);
    assert_eq!(target.submissions(), &vec![0, 1, 9]);
}
