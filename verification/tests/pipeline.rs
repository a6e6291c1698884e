use ercp_basic_example::{Action, Pipeline, Stage};

/// One run of the interrupt handler, as the firmware makes it.
fn interrupt(pipeline: &mut Pipeline, fed: bool, complete: bool, queued: bool) -> Action {
    let action = pipeline.byte_received(fed, complete);
    if action == Action::Spawn {
        pipeline.task_queued(queued);
    }
    action
}

#[test]
fn pipeline_starts_idle() {
    assert_eq!(Pipeline::new().stage(), Stage::Idle);
}

#[test]
fn byte_of_an_unfinished_frame_only_receives() {
    let mut pipeline = Pipeline::new();
    assert_eq!(pipeline.byte_received(true, false), Action::Return);
    assert_eq!(pipeline.stage(), Stage::Receiving);
    assert_eq!(pipeline.byte_received(true, false), Action::Return);
    assert_eq!(pipeline.stage(), Stage::Receiving);
}

#[test]
fn byte_that_completes_a_frame_asks_for_the_task() {
    let mut pipeline = Pipeline::new();
    assert_eq!(pipeline.byte_received(true, false), Action::Return);
    assert_eq!(pipeline.byte_received(true, true), Action::Spawn);
    assert_eq!(pipeline.stage(), Stage::FrameReady);
}

#[test]
fn frame_of_one_byte_is_ready_from_idle() {
    let mut pipeline = Pipeline::new();
    assert_eq!(pipeline.byte_received(true, true), Action::Spawn);
    assert_eq!(pipeline.stage(), Stage::FrameReady);
}

#[test]
fn queued_task_means_processing() {
    let mut pipeline = Pipeline::new();
    pipeline.byte_received(true, true);
    pipeline.task_queued(true);
    assert_eq!(pipeline.stage(), Stage::Processing);
}

#[test]
fn task_that_was_queued_already_means_processing_too() {
    let mut pipeline = Pipeline::new();
    pipeline.byte_received(true, true);
    pipeline.task_queued(false);
    assert_eq!(pipeline.stage(), Stage::Processing);
}

#[test]
fn task_is_only_due_for_a_ready_frame() {
    let mut pipeline = Pipeline::new();
    pipeline.task_queued(true);
    assert_eq!(pipeline.stage(), Stage::Idle);
    pipeline.byte_received(true, false);
    pipeline.task_queued(true);
    assert_eq!(pipeline.stage(), Stage::Receiving);
    pipeline.byte_received(true, true);
    pipeline.task_queued(true);
    pipeline.task_queued(true);
    assert_eq!(pipeline.stage(), Stage::Processing);
}

#[test]
fn processing_returns_to_idle() {
    let mut pipeline = Pipeline::new();
    interrupt(&mut pipeline, true, true, true);
    assert_eq!(pipeline.stage(), Stage::Processing);
    pipeline.frame_processed(true);
    assert_eq!(pipeline.stage(), Stage::Idle);
}

#[test]
fn failed_processing_returns_to_idle_too() {
    let mut pipeline = Pipeline::new();
    interrupt(&mut pipeline, true, true, true);
    pipeline.frame_processed(false);
    assert_eq!(pipeline.stage(), Stage::Idle);
}

#[test]
fn refused_byte_is_swallowed() {
    let mut pipeline = Pipeline::new();
    assert_eq!(interrupt(&mut pipeline, false, false, true), Action::Return);
    assert_eq!(pipeline.stage(), Stage::Receiving);
    assert_eq!(interrupt(&mut pipeline, false, true, true), Action::Spawn);
    assert_eq!(pipeline.stage(), Stage::Processing);
}

#[test]
fn byte_while_the_task_waits_goes_back_to_receiving() {
    let mut pipeline = Pipeline::new();
    interrupt(&mut pipeline, true, true, true);
    assert_eq!(interrupt(&mut pipeline, true, false, true), Action::Return);
    assert_eq!(pipeline.stage(), Stage::Receiving);
    assert_eq!(interrupt(&mut pipeline, true, true, false), Action::Spawn);
    assert_eq!(pipeline.stage(), Stage::Processing);
}

#[test]
fn pipeline_cycles_frame_after_frame() {
    let mut pipeline = Pipeline::new();
    for _ in 0..3 {
        assert_eq!(pipeline.stage(), Stage::Idle);
        assert_eq!(interrupt(&mut pipeline, true, false, true), Action::Return);
        assert_eq!(interrupt(&mut pipeline, true, false, true), Action::Return);
        assert_eq!(interrupt(&mut pipeline, true, true, true), Action::Spawn);
        assert_eq!(pipeline.stage(), Stage::Processing);
        pipeline.frame_processed(true);
    }
    assert_eq!(pipeline.stage(), Stage::Idle);
}

#[test]
fn processing_with_nothing_received_stays_idle() {
    let mut pipeline = Pipeline::new();
    pipeline.frame_processed(true);
    assert_eq!(pipeline.stage(), Stage::Idle);
}

#[test]
fn task_is_due_only_for_a_frame_that_nothing_touched() {
    // Every sequence of seven steps, each one of: a byte that leaves the
    // frame unfinished, a byte that completes it, the request for the task,
    // and the task's run.
    for sequence in 0..4u32.pow(7) {
        let mut pipeline = Pipeline::new();
        let mut whole = false;
        let mut steps = sequence;
        for _ in 0..7 {
            match steps % 4 {
                0 => {
                    pipeline.byte_received(true, false);
                    whole = false;
                }
                1 => {
                    pipeline.byte_received(true, true);
                    whole = true;
                }
                2 => pipeline.task_queued(true),
                _ => {
                    pipeline.frame_processed(true);
                    whole = false;
                }
            }
            steps /= 4;
            let held = matches!(pipeline.stage(), Stage::FrameReady | Stage::Processing);
            assert_eq!(held, whole, "sequence {}", sequence);
        }
    }
}
