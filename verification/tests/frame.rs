use crispy::render::frame::classify_render_error;
use crispy::render::frame::frame_step;
use crispy::render::frame::ErrorAction;
use crispy::render::frame::FrameEvent;
use crispy::render::frame::FrameState;
use crispy::render::frame::RenderError;

#[test]
fn error_classification_follows_the_policy() {
    assert_eq!(classify_render_error(&RenderError::Lost), ErrorAction::Reconfigure);
    assert_eq!(classify_render_error(&RenderError::Outdated), ErrorAction::Reconfigure);
    assert_eq!(classify_render_error(&RenderError::OutOfMemory), ErrorAction::Terminate);
    assert_eq!(classify_render_error(&RenderError::Timeout), ErrorAction::SkipFrame);
}

#[test]
fn frame_machine_walks_one_full_frame() {
    let s = FrameState::Idle;
    let s = frame_step(&s, &FrameEvent::Begin);
    assert_eq!(s, FrameState::Acquiring);
    let s = frame_step(&s, &FrameEvent::AcquireOk);
    assert_eq!(s, FrameState::Recording);
    let s = frame_step(&s, &FrameEvent::FinishRecording);
    assert_eq!(s, FrameState::Submitted);
    let s = frame_step(&s, &FrameEvent::Present);
    assert_eq!(s, FrameState::Presented);
    let s = frame_step(&s, &FrameEvent::Complete);
    assert_eq!(s, FrameState::Idle);
}

#[test]
fn acquire_failure_returns_to_idle() {
    let s = frame_step(&FrameState::Idle, &FrameEvent::Begin);
    let s = frame_step(&s, &FrameEvent::AcquireErr(RenderError::Lost));
    assert_eq!(s, FrameState::Idle);
}

#[test]
fn inapplicable_events_change_nothing() {
    assert_eq!(frame_step(&FrameState::Idle, &FrameEvent::Present), FrameState::Idle);
    assert_eq!(
        frame_step(&FrameState::Recording, &FrameEvent::Begin),
        FrameState::Recording
    );
    assert_eq!(
        frame_step(&FrameState::Submitted, &FrameEvent::AcquireOk),
        FrameState::Submitted
    );
}
