use vstd::prelude::*;

use crate::clock::ClockEvent;

verus! {

/// Phase of the capture loop.
#[derive(Clone, Copy, Debug, PartialEq, Eq, Structural)]
pub enum CaptureState {
    /// Frames are read and merged into the table.
    Capturing,
    /// No frames are processed until the countdown resumes.
    Paused,
    /// The countdown is over; the session has ended.
    Finished,
}

/// What the capture loop does after an event of the countdown.
#[derive(Clone, Copy, Debug, PartialEq, Eq, Structural)]
pub enum LoopAction {
    /// Go on reading frames.
    Proceed,
    /// Hand a snapshot of the table to the reporter, then block until the
    /// next event.
    ReportAndWait,
    /// Block until the next event.
    Wait,
    /// Leave the loop and hand the final snapshot to the reporter.
    Stop,
}

/// The capture loop's reaction to an event of the countdown.
pub open spec fn next_step(state: CaptureState, event: ClockEvent) -> (CaptureState, LoopAction) {
    match (state, event) {
        (CaptureState::Finished, _) => (CaptureState::Finished, LoopAction::Stop),
        (_, ClockEvent::TimedOut) => (CaptureState::Finished, LoopAction::Stop),
        (CaptureState::Capturing, ClockEvent::Paused) => (
            CaptureState::Paused,
            LoopAction::ReportAndWait,
        ),
        (CaptureState::Paused, ClockEvent::Paused) => (CaptureState::Paused, LoopAction::Wait),
        (_, ClockEvent::Resumed) => (CaptureState::Capturing, LoopAction::Proceed),
    }
}

/// Decides the capture loop's next phase and action on an event.
pub fn on_event(state: CaptureState, event: ClockEvent) -> (r: (CaptureState, LoopAction))
    ensures
        r == next_step(state, event),
        r.0 == CaptureState::Finished <==> r.1 == LoopAction::Stop,
        r.0 == CaptureState::Paused <==> (r.1 == LoopAction::ReportAndWait || r.1
            == LoopAction::Wait),
{
    match (state, event) {
        (CaptureState::Finished, _) => (CaptureState::Finished, LoopAction::Stop),
        (_, ClockEvent::TimedOut) => (CaptureState::Finished, LoopAction::Stop),
        (CaptureState::Capturing, ClockEvent::Paused) => (
            CaptureState::Paused,
            LoopAction::ReportAndWait,
        ),
        (CaptureState::Paused, ClockEvent::Paused) => (CaptureState::Paused, LoopAction::Wait),
        (_, ClockEvent::Resumed) => (CaptureState::Capturing, LoopAction::Proceed),
    }
}

} // verus!
