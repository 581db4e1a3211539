use vstd::prelude::*;

verus! {

/// The classified failures one frame can report, mirroring what acquiring
/// a presentable surface image can return.
#[derive(Clone, Copy, Debug, PartialEq, Eq, Structural)]
pub enum RenderError {
    /// Acquiring a presentable image timed out.
    Timeout,
    /// The surface no longer matches the window and must be reconfigured.
    Outdated,
    /// The surface was lost and must be reconfigured.
    Lost,
    /// The device ran out of memory.
    OutOfMemory,
}

/// What the caller's per-frame error branch should do for a failure class.
#[derive(Clone, Copy, Debug, PartialEq, Eq, Structural)]
pub enum ErrorAction {
    /// Reconfigure the surface at the current size and try again next frame.
    Reconfigure,
    /// Report the failure and skip this frame; keep the loop running.
    SkipFrame,
    /// Stop the render loop; the device cannot continue.
    Terminate,
}

/// The error policy: lost and outdated surfaces are transient and call for
/// reconfiguration, memory exhaustion is fatal, anything else only skips
/// the frame.
pub open spec fn classify_spec(e: RenderError) -> ErrorAction {
    match e {
        RenderError::Lost => ErrorAction::Reconfigure,
        RenderError::Outdated => ErrorAction::Reconfigure,
        RenderError::OutOfMemory => ErrorAction::Terminate,
        RenderError::Timeout => ErrorAction::SkipFrame,
    }
}

/// Maps a frame failure to the action the caller owes it.
pub fn classify_render_error(e: &RenderError) -> (a: ErrorAction)
    ensures
        a == classify_spec(*e),
{
    match e {
        RenderError::Lost => ErrorAction::Reconfigure,
        RenderError::Outdated => ErrorAction::Reconfigure,
        RenderError::OutOfMemory => ErrorAction::Terminate,
        RenderError::Timeout => ErrorAction::SkipFrame,
    }
}

/// Where one frame stands, from idle through presentation and back.
#[derive(Clone, Copy, Debug, PartialEq, Eq, Structural)]
pub enum FrameState {
    Idle,
    Acquiring,
    Recording,
    Submitted,
    Presented,
}

/// What happened to the frame since the last step.
#[derive(Clone, Copy, Debug, PartialEq, Eq, Structural)]
pub enum FrameEvent {
    /// The caller asked for a frame.
    Begin,
    /// A presentable surface image was acquired.
    AcquireOk,
    /// Acquiring failed with a classified error.
    AcquireErr(RenderError),
    /// Both passes were recorded into one command sequence.
    FinishRecording,
    /// The command sequence was handed to the device queue.
    Present,
    /// The acquired image was returned to the platform.
    Complete,
}

/// One step of the frame state machine:
/// `Idle -> Acquiring -> Recording -> Submitted -> Presented -> Idle`,
/// with an acquisition failure returning straight to `Idle`. An event that
/// does not apply to the current state changes nothing; in particular no
/// failed step is retried inside this core.
pub open spec fn frame_step_spec(s: FrameState, e: FrameEvent) -> FrameState {
    match (s, e) {
        (FrameState::Idle, FrameEvent::Begin) => FrameState::Acquiring,
        (FrameState::Acquiring, FrameEvent::AcquireOk) => FrameState::Recording,
        (FrameState::Acquiring, FrameEvent::AcquireErr(_)) => FrameState::Idle,
        (FrameState::Recording, FrameEvent::FinishRecording) => FrameState::Submitted,
        (FrameState::Submitted, FrameEvent::Present) => FrameState::Presented,
        (FrameState::Presented, FrameEvent::Complete) => FrameState::Idle,
        (other, _) => other,
    }
}

/// Advances the frame state machine by one event.
pub fn frame_step(s: &FrameState, e: &FrameEvent) -> (next: FrameState)
    ensures
        next == frame_step_spec(*s, *e),
{
    match (s, e) {
        (FrameState::Idle, FrameEvent::Begin) => FrameState::Acquiring,
        (FrameState::Acquiring, FrameEvent::AcquireOk) => FrameState::Recording,
        (FrameState::Acquiring, FrameEvent::AcquireErr(_)) => FrameState::Idle,
        (FrameState::Recording, FrameEvent::FinishRecording) => FrameState::Submitted,
        (FrameState::Submitted, FrameEvent::Present) => FrameState::Presented,
        (FrameState::Presented, FrameEvent::Complete) => FrameState::Idle,
        (other, _) => *other,
    }
}

/// Law: an acquisition failure abandons the frame — the machine returns to
/// `Idle` and never retries on its own.
pub proof fn lemma_acquire_failure_aborts_frame(e: RenderError)
    ensures
        frame_step_spec(FrameState::Acquiring, FrameEvent::AcquireErr(e)) is Idle,
{
}

} // verus!
