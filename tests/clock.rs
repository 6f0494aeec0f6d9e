use packet_sniffer::clock::{parse_command, ClockEvent, ClockState, Command, SessionClock, TimerAction};

#[test]
fn countdown_expires_after_its_duration() {
    let mut c = SessionClock::new(2000, 0);
    assert_eq!(c.poll(0), TimerAction::WaitMs(2000));
    assert_eq!(c.poll(1999), TimerAction::WaitMs(1));
    assert_eq!(c.poll(2000), TimerAction::Expire);
    assert_eq!(c.state(), ClockState::Expired);
    assert_eq!(c.time_left(), 0);
}

#[test]
fn pause_stretches_the_session() {
    // pause 500 ms into a 2 s countdown, resume one second later
    let mut c = SessionClock::new(2000, 0);
    assert!(c.pause(500));
    assert_eq!(c.time_left(), 1500);
    assert_eq!(c.poll(1000), TimerAction::WaitForResume);
    assert!(c.resume(1500));
    assert_eq!(c.time_left(), 1500);
    assert_eq!(c.poll(2000), TimerAction::WaitMs(1000));
    // still running 2.5 s after the start: the pause did not count
    assert_eq!(c.poll(2500), TimerAction::WaitMs(500));
    assert_eq!(c.poll(2999), TimerAction::WaitMs(1));
    assert_eq!(c.state(), ClockState::Running);
    assert_eq!(c.poll(3000), TimerAction::Expire);
}

#[test]
fn repeated_pause_is_a_no_op() {
    let mut once = SessionClock::new(2000, 0);
    assert!(once.pause(300));
    let mut twice = SessionClock::new(2000, 0);
    assert!(twice.pause(300));
    assert!(!twice.pause(800));
    assert_eq!(once.time_left(), twice.time_left());
    assert_eq!(twice.state(), ClockState::Paused);
    assert!(twice.is_paused());
}

#[test]
fn repeated_resume_is_a_no_op() {
    let mut c = SessionClock::new(2000, 0);
    assert!(c.pause(300));
    assert!(c.resume(400));
    assert!(!c.resume(600));
    assert_eq!(c.state(), ClockState::Running);
    assert_eq!(c.poll(600), TimerAction::WaitMs(1500));
}

#[test]
fn resume_without_pause_changes_nothing() {
    let mut c = SessionClock::new(1000, 0);
    assert!(!c.resume(100));
    assert_eq!(c.poll(100), TimerAction::WaitMs(900));
}

#[test]
fn paused_time_does_not_count() {
    let mut c = SessionClock::new(1000, 0);
    assert!(c.pause(400));
    assert_eq!(c.poll(50_000), TimerAction::WaitForResume);
    assert!(c.resume(60_000));
    assert_eq!(c.poll(60_599), TimerAction::WaitMs(1));
    assert_eq!(c.poll(60_600), TimerAction::Expire);
}

#[test]
fn running_time_never_exceeds_duration() {
    let mut c = SessionClock::new(1000, 0);
    assert!(c.pause(300));
    assert!(c.resume(500));
    assert!(c.pause(900));
    assert_eq!(c.time_left(), 300);
    assert!(c.resume(2000));
    // the deadline passed before this pause: the countdown is over instead
    assert!(!c.pause(2400));
    assert_eq!(c.state(), ClockState::Expired);
    assert_eq!(c.time_left(), 0);
    assert!(!c.resume(2500));
    assert_eq!(c.poll(2600), TimerAction::Expire);
}

#[test]
fn zero_duration_expires_at_once() {
    let mut c = SessionClock::new(0, 10);
    assert_eq!(c.poll(10), TimerAction::Expire);
}

#[test]
fn commands_are_read_from_trimmed_lines() {
    assert_eq!(parse_command("p"), Command::Pause);
    assert_eq!(parse_command("p\n"), Command::Pause);
    assert_eq!(parse_command("  r \r\n"), Command::Resume);
    assert_eq!(parse_command("\tp\u{3000}"), Command::Pause);
    assert_eq!(parse_command("pp"), Command::Other);
    assert_eq!(parse_command("p r"), Command::Other);
    assert_eq!(parse_command(""), Command::Other);
    assert_eq!(parse_command("   \n"), Command::Other);
    assert_eq!(parse_command("P"), Command::Other);
    assert_eq!(parse_command("q"), Command::Other);
}

#[test]
fn command_lines_drive_the_clock() {
    let mut c = SessionClock::new(2000, 0);
    assert_eq!(c.command("p\n", 500), Some(ClockEvent::Paused));
    assert_eq!(c.command("p\n", 600), None);
    assert_eq!(c.command("hello\n", 700), None);
    assert!(c.is_paused());
    assert_eq!(c.command("r\n", 1500), Some(ClockEvent::Resumed));
    assert_eq!(c.command("r\n", 1600), None);
    assert_eq!(c.time_left(), 1400);
}
