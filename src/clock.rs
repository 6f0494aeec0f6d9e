use vstd::prelude::*;

use crate::text::{trim, trim_bounds};

verus! {

/// An operator command: `p` pauses, `r` resumes, anything else is ignored.
#[derive(Clone, Copy, Debug, PartialEq, Eq, Structural)]
pub enum Command {
    Pause,
    Resume,
    Other,
}

/// The command that a line of operator input holds, surrounding
/// whitespace aside.
pub open spec fn command_of(line: Seq<char>) -> Command {
    if trim(line) == seq!['p'] {
        Command::Pause
    } else if trim(line) == seq!['r'] {
        Command::Resume
    } else {
        Command::Other
    }
}

/// Reads an operator command from a line of input.
pub fn parse_command(line: &str) -> (r: Command)
    ensures
        r == command_of(line@),
{
    let (a, b) = trim_bounds(line);
    if b - a == 1 {
        let c = line.get_char(a);
        assert(trim(line@) =~= seq![c]);
        if c == 'p' {
            Command::Pause
        } else if c == 'r' {
            Command::Resume
        } else {
            assert(trim(line@)[0] != 'p');
            assert(trim(line@)[0] != 'r');
            Command::Other
        }
    } else {
        assert(trim(line@).len() != 1);
        Command::Other
    }
}

/// Phase of a session's countdown.
#[derive(Clone, Copy, Debug, PartialEq, Eq, Structural)]
pub enum ClockState {
    Running,
    Paused,
    Expired,
}

/// What the countdown announces to the capture loop.
#[derive(Clone, Copy, Debug, PartialEq, Eq, Structural)]
pub enum ClockEvent {
    Resumed,
    Paused,
    TimedOut,
}

/// What the timer task does next.
#[derive(Clone, Copy, Debug, PartialEq, Eq, Structural)]
pub enum TimerAction {
    /// Sleep at most this many milliseconds, waking early on a state change.
    WaitMs(u64),
    /// Sleep until the clock is resumed.
    WaitForResume,
    /// The countdown is over: announce it and stop.
    Expire,
}

/// One input to the clock, with the time (in milliseconds) at which it comes.
#[derive(Clone, Copy, Debug, PartialEq, Eq, Structural)]
pub enum ClockInput {
    Pause(u64),
    Resume(u64),
    Poll(u64),
}

impl ClockInput {
    pub open spec fn time(self) -> u64 {
        match self {
            ClockInput::Pause(t) => t,
            ClockInput::Resume(t) => t,
            ClockInput::Poll(t) => t,
        }
    }
}

/// Mathematical value of a [`SessionClock`]. Times are milliseconds on a
/// monotonic scale.
pub struct ClockView {
    /// The configured length of the countdown.
    pub duration: u64,
    /// Countdown left at the start of the current running interval.
    pub remaining: u64,
    /// Start of the current (or last) running interval.
    pub started_at: u64,
    /// When the last pause took effect.
    pub paused_at: u64,
    /// Time of the last observation of the clock.
    pub last: u64,
    pub state: ClockState,
}

impl ClockView {
    pub open spec fn wf(self) -> bool {
        &&& self.remaining <= self.duration
        &&& self.started_at <= self.last
        &&& self.paused_at <= self.last
        &&& self.state == ClockState::Running ==> self.last - self.started_at <= self.remaining
        &&& self.state == ClockState::Paused ==> self.remaining > 0
        &&& self.state == ClockState::Expired ==> self.remaining == 0
    }

    /// Countdown left at the last observation.
    pub open spec fn time_left(self) -> nat {
        match self.state {
            ClockState::Running => (self.remaining - (self.last - self.started_at)) as nat,
            ClockState::Paused => self.remaining as nat,
            ClockState::Expired => 0,
        }
    }

    /// The clock seen at time `now`: a running countdown whose time is up
    /// expires.
    pub open spec fn observe(self, now: u64) -> ClockView {
        if self.state == ClockState::Running && now - self.started_at >= self.remaining {
            ClockView { state: ClockState::Expired, remaining: 0, last: now, ..self }
        } else {
            ClockView { last: now, ..self }
        }
    }

    /// A pause request at `now`: a running countdown stops and keeps what
    /// is left of it; otherwise nothing changes.
    pub open spec fn pause(self, now: u64) -> ClockView {
        let c = self.observe(now);
        if c.state == ClockState::Running {
            ClockView {
                state: ClockState::Paused,
                paused_at: now,
                remaining: (c.remaining - (now - c.started_at)) as u64,
                ..c
            }
        } else {
            c
        }
    }

    /// A resume request at `now`: a paused countdown starts a new running
    /// interval; otherwise nothing changes.
    pub open spec fn resume(self, now: u64) -> ClockView {
        let c = self.observe(now);
        if c.state == ClockState::Paused {
            ClockView { state: ClockState::Running, started_at: now, ..c }
        } else {
            c
        }
    }

    pub open spec fn apply(self, e: ClockInput) -> ClockView {
        match e {
            ClockInput::Pause(t) => self.pause(t),
            ClockInput::Resume(t) => self.resume(t),
            ClockInput::Poll(t) => self.observe(t),
        }
    }

    /// The clock after the inputs `es`, in order.
    pub open spec fn run(self, es: Seq<ClockInput>) -> ClockView
        decreases es.len(),
    {
        if es.len() == 0 {
            self
        } else {
            self.apply(es[0]).run(es.drop_first())
        }
    }

    /// The inputs `es` come at non-decreasing times, none before the last
    /// observation.
    pub open spec fn in_time(self, es: Seq<ClockInput>) -> bool
        decreases es.len(),
    {
        es.len() > 0 ==> {
            &&& es[0].time() >= self.last
            &&& self.apply(es[0]).in_time(es.drop_first())
        }
    }

    /// How long the countdown was running between the last observation and
    /// `now`: zero unless it was running, and never past its deadline.
    pub open spec fn running_between(self, now: u64) -> nat {
        if self.state == ClockState::Running {
            if now - self.started_at >= self.remaining {
                (self.started_at + self.remaining - self.last) as nat
            } else {
                (now - self.last) as nat
            }
        } else {
            0
        }
    }

    /// Total running time of the countdown over the inputs `es`.
    pub open spec fn running_time(self, es: Seq<ClockInput>) -> nat
        decreases es.len(),
    {
        if es.len() == 0 {
            0
        } else {
            self.running_between(es[0].time()) + self.apply(es[0]).running_time(es.drop_first())
        }
    }
}

/// One input moves no time off the countdown but what it ran: the running
/// time up to the input plus what is left afterwards is what was left
/// before.
proof fn lemma_apply_accounts(c: ClockView, e: ClockInput)
    requires
        c.wf(),
        e.time() >= c.last,
    ensures
        c.apply(e).wf(),
        c.apply(e).last == e.time(),
        c.running_between(e.time()) + c.apply(e).time_left() == c.time_left(),
{
}

/// Over any inputs that come in time order, the running intervals of the
/// countdown add up to what it has consumed: their sum plus what is left
/// equals what was left at the start. Paused intervals add nothing, the sum
/// never exceeds the configured duration, and an expired countdown ran for
/// exactly what was left of it.
pub proof fn lemma_running_time_bounded(c: ClockView, es: Seq<ClockInput>)
    requires
        c.wf(),
        c.in_time(es),
    ensures
        c.run(es).wf(),
        c.running_time(es) + c.run(es).time_left() == c.time_left(),
        c.running_time(es) <= c.duration,
        c.run(es).state == ClockState::Expired ==> c.running_time(es) == c.time_left(),
    decreases es.len(),
{
    if es.len() > 0 {
        lemma_apply_accounts(c, es[0]);
        lemma_running_time_bounded(c.apply(es[0]), es.drop_first());
    }
}

/// From a fresh countdown of `duration`, the running time over inputs in
/// time order never exceeds `duration`, and the countdown expires only once
/// it has run for all of it.
pub proof fn lemma_session_running_time(duration: u64, start: u64, es: Seq<ClockInput>)
    requires
        (ClockView {
            duration,
            remaining: duration,
            started_at: start,
            paused_at: start,
            last: start,
            state: ClockState::Running,
        }).in_time(es),
    ensures
        ({
            let c = ClockView {
                duration,
                remaining: duration,
                started_at: start,
                paused_at: start,
                last: start,
                state: ClockState::Running,
            };
            &&& c.running_time(es) + c.run(es).time_left() == duration
            &&& c.running_time(es) <= duration
            &&& c.run(es).state == ClockState::Expired ==> c.running_time(es) == duration
        }),
{
    let c = ClockView {
        duration,
        remaining: duration,
        started_at: start,
        paused_at: start,
        last: start,
        state: ClockState::Running,
    };
    lemma_running_time_bounded(c, es);
}

/// A pause followed by a resume loses no countdown: what is left after the
/// resume is what was left when the pause took effect, however long the
/// pause lasted.
pub proof fn lemma_pause_keeps_time_left(c: ClockView, t1: u64, t2: u64)
    requires
        c.wf(),
        c.last <= t1 <= t2,
    ensures
        c.pause(t1).resume(t2).time_left() == c.pause(t1).time_left(),
        c.pause(t1).time_left() == c.observe(t1).time_left(),
{
}

/// A repeated pause request does nothing beyond observing the clock, and
/// one repeated at the same moment changes nothing at all.
pub proof fn lemma_pause_idempotent(c: ClockView, t1: u64, t2: u64)
    requires
        c.wf(),
        c.last <= t1 <= t2,
    ensures
        c.pause(t1).pause(t2) == c.pause(t1).observe(t2),
        c.pause(t1).pause(t1) == c.pause(t1),
{
}

/// A repeated resume request does nothing beyond observing the clock, and
/// one repeated at the same moment changes nothing at all.
pub proof fn lemma_resume_idempotent(c: ClockView, t1: u64, t2: u64)
    requires
        c.wf(),
        c.last <= t1 <= t2,
    ensures
        c.resume(t1).resume(t2) == c.resume(t1).observe(t2),
        c.resume(t1).resume(t1) == c.resume(t1),
{
}

/// A countdown of a session's running time that pauses and resumes.
pub struct SessionClock {
    duration: u64,
    remaining: u64,
    started_at: u64,
    paused_at: u64,
    last: u64,
    state: ClockState,
}

impl View for SessionClock {
    type V = ClockView;

    closed spec fn view(&self) -> ClockView {
        ClockView {
            duration: self.duration,
            remaining: self.remaining,
            started_at: self.started_at,
            paused_at: self.paused_at,
            last: self.last,
            state: self.state,
        }
    }
}

impl SessionClock {
    /// A running countdown of `duration_ms` that starts at `now_ms`.
    pub fn new(duration_ms: u64, now_ms: u64) -> (r: SessionClock)
        ensures
            r@ == (ClockView {
                duration: duration_ms,
                remaining: duration_ms,
                started_at: now_ms,
                paused_at: now_ms,
                last: now_ms,
                state: ClockState::Running,
            }),
            r@.wf(),
    {
        SessionClock {
            duration: duration_ms,
            remaining: duration_ms,
            started_at: now_ms,
            paused_at: now_ms,
            last: now_ms,
            state: ClockState::Running,
        }
    }

    pub fn state(&self) -> (r: ClockState)
        ensures
            r == self@.state,
    {
        self.state
    }

    /// Time of the last observation; later calls must not come earlier.
    pub fn last_observed(&self) -> (r: u64)
        ensures
            r == self@.last,
    {
        self.last
    }

    pub fn is_paused(&self) -> (r: bool)
        ensures
            r == (self@.state == ClockState::Paused),
    {
        self.state == ClockState::Paused
    }

    /// Countdown left at the last observation.
    pub fn time_left(&self) -> (r: u64)
        requires
            self@.wf(),
        ensures
            r == self@.time_left(),
    {
        match self.state {
            ClockState::Running => self.remaining - (self.last - self.started_at),
            ClockState::Paused => self.remaining,
            ClockState::Expired => 0,
        }
    }

    /// Looks at the clock at `now_ms`, expiring a countdown whose time is up.
    fn observe(&mut self, now_ms: u64)
        requires
            old(self)@.wf(),
            now_ms >= old(self)@.last,
        ensures
            final(self)@ == old(self)@.observe(now_ms),
            final(self)@.wf(),
    {
        if self.state == ClockState::Running && now_ms - self.started_at >= self.remaining {
            self.state = ClockState::Expired;
            self.remaining = 0;
        }
        self.last = now_ms;
    }

    /// Pause request at `now_ms`. Returns whether a running countdown paused.
    pub fn pause(&mut self, now_ms: u64) -> (r: bool)
        requires
            old(self)@.wf(),
            now_ms >= old(self)@.last,
        ensures
            final(self)@ == old(self)@.pause(now_ms),
            final(self)@.wf(),
            r == (old(self)@.observe(now_ms).state == ClockState::Running),
    {
        self.observe(now_ms);
        if self.state == ClockState::Running {
            self.remaining = self.remaining - (now_ms - self.started_at);
            self.paused_at = now_ms;
            self.state = ClockState::Paused;
            true
        } else {
            false
        }
    }

    /// Resume request at `now_ms`. Returns whether a paused countdown resumed.
    pub fn resume(&mut self, now_ms: u64) -> (r: bool)
        requires
            old(self)@.wf(),
            now_ms >= old(self)@.last,
        ensures
            final(self)@ == old(self)@.resume(now_ms),
            final(self)@.wf(),
            r == (old(self)@.observe(now_ms).state == ClockState::Paused),
    {
        self.observe(now_ms);
        if self.state == ClockState::Paused {
            self.started_at = now_ms;
            self.state = ClockState::Running;
            true
        } else {
            false
        }
    }

    /// The timer task's decision at `now_ms`: wait for what is left of a
    /// running countdown, wait for a resume while paused, or expire.
    pub fn poll(&mut self, now_ms: u64) -> (r: TimerAction)
        requires
            old(self)@.wf(),
            now_ms >= old(self)@.last,
        ensures
            final(self)@ == old(self)@.observe(now_ms),
            final(self)@.wf(),
            r == (match final(self)@.state {
                ClockState::Running => TimerAction::WaitMs(final(self)@.time_left() as u64),
                ClockState::Paused => TimerAction::WaitForResume,
                ClockState::Expired => TimerAction::Expire,
            }),
    {
        self.observe(now_ms);
        match self.state {
            ClockState::Running => TimerAction::WaitMs(self.time_left()),
            ClockState::Paused => TimerAction::WaitForResume,
            ClockState::Expired => TimerAction::Expire,
        }
    }

    /// Applies a line of operator input at `now_ms`. Returns the event to
    /// announce when the command changed the clock's phase.
    pub fn command(&mut self, line: &str, now_ms: u64) -> (r: Option<ClockEvent>)
        requires
            old(self)@.wf(),
            now_ms >= old(self)@.last,
        ensures
            final(self)@.wf(),
            command_of(line@) == Command::Pause ==> {
                &&& final(self)@ == old(self)@.pause(now_ms)
                &&& r == if old(self)@.observe(now_ms).state == ClockState::Running {
                    Some(ClockEvent::Paused)
                } else {
                    None
                }
            },
            command_of(line@) == Command::Resume ==> {
                &&& final(self)@ == old(self)@.resume(now_ms)
                &&& r == if old(self)@.observe(now_ms).state == ClockState::Paused {
                    Some(ClockEvent::Resumed)
                } else {
                    None
                }
            },
            command_of(line@) == Command::Other ==> final(self)@ == old(self)@ && r is None,
    {
        match parse_command(line) {
            Command::Pause => {
                if self.pause(now_ms) {
                    Some(ClockEvent::Paused)
                } else {
                    None
                }
            },
            Command::Resume => {
                if self.resume(now_ms) {
                    Some(ClockEvent::Resumed)
                } else {
                    None
                }
            },
            Command::Other => None,
        }
    }
}

} // verus!
