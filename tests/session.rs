use packet_sniffer::clock::ClockEvent;
use packet_sniffer::session::{on_event, CaptureState, LoopAction};

#[test]
fn pause_reports_and_waits() {
    assert_eq!(
        on_event(CaptureState::Capturing, ClockEvent::Paused),
        (CaptureState::Paused, LoopAction::ReportAndWait)
    );
    assert_eq!(
        on_event(CaptureState::Paused, ClockEvent::Paused),
        (CaptureState::Paused, LoopAction::Wait)
    );
}

#[test]
fn resume_goes_back_to_capturing() {
    assert_eq!(
        on_event(CaptureState::Paused, ClockEvent::Resumed),
        (CaptureState::Capturing, LoopAction::Proceed)
    );
    assert_eq!(
        on_event(CaptureState::Capturing, ClockEvent::Resumed),
        (CaptureState::Capturing, LoopAction::Proceed)
    );
}

#[test]
fn timeout_ends_the_session() {
    assert_eq!(
        on_event(CaptureState::Capturing, ClockEvent::TimedOut),
        (CaptureState::Finished, LoopAction::Stop)
    );
    assert_eq!(
        on_event(CaptureState::Paused, ClockEvent::TimedOut),
        (CaptureState::Finished, LoopAction::Stop)
    );
    assert_eq!(
        on_event(CaptureState::Finished, ClockEvent::Resumed),
        (CaptureState::Finished, LoopAction::Stop)
    );
}
