//! The Pomodoro timer state machine.
//!
//! A session holds one phase (Work, Break or Relax, each with its remaining
//! whole seconds) and one run state (idle, or ticking with the timestamp of
//! the last processed tick). It is driven by events from the surrounding
//! shell: a nominal once-per-second tick while ticking, and the user's
//! toggle, reset and mode-select requests. The countdown advances in fixed
//! one-second steps per tick event; when it reaches zero, the next tick
//! rolls the phase over, stops the countdown, and emits a phase-complete
//! notice for the shell to deliver.

use vstd::prelude::*;
use vstd::string::StringExecFns;
use crate::clock::{clock_full, clock_full_text, clock_short, clock_short_text};

verus! {

/// Full duration of the Work phase, in seconds (25 minutes).
pub const WORK_FULL_SECS: u64 = 1500;

/// Full duration of the Break phase, in seconds (5 minutes).
pub const BREAK_FULL_SECS: u64 = 300;

/// Full duration of the Relax phase, in seconds (15 minutes).
pub const RELAX_FULL_SECS: u64 = 900;

/// Seconds a completed phase rolls over to: always 5 minutes, also when the
/// next phase is Work.
pub const ROLLOVER_SECS: u64 = 300;

/// The phase the timer is in, with its remaining whole seconds.
#[derive(Clone, Copy, Debug, PartialEq, Eq, Structural)]
pub enum PomodoroState {
    WorkTwentyFive(u64),
    BreakFive(u64),
    FifteenRelax(u64),
}

/// Whether the countdown is advancing. While ticking, `last_tick` records
/// the timestamp of the last processed tick; it is diagnostic only and never
/// feeds the decrement.
#[derive(Clone, Copy, Debug, PartialEq, Eq, Structural)]
pub enum TimeState {
    Idle,
    Ticking { last_tick: u64 },
}

/// A timer session: exactly one phase and one run state.
#[derive(Clone, Copy, Debug, PartialEq, Eq, Structural)]
pub struct Pomodoro {
    pub mode: PomodoroState,
    pub state: TimeState,
}

/// One of the three phases, named without a duration: the target of a
/// mode-select request.
#[derive(Clone, Copy, Debug, PartialEq, Eq, Structural)]
pub enum Phase {
    Work,
    Break,
    Relax,
}

/// An event delivered by the surrounding shell. `Tick` arrives nominally
/// once per second while the session is ticking; the rest are user intents.
#[derive(Clone, Copy, Debug, PartialEq, Eq, Structural)]
pub enum Message {
    Break,
    Relax,
    Reset,
    Tick,
    Toggle,
    Work,
}

/// A key release the shell could not otherwise place: space toggles the
/// countdown and `R` resets the session.
#[derive(Clone, Copy, Debug, PartialEq, Eq, Structural)]
pub enum Key {
    Space,
    R,
    Other,
}

/// A phase-complete notification for the shell to deliver. Delivery is a
/// side effect outside the state machine; a failed delivery must never stop
/// the timer.
#[derive(Clone, Debug)]
pub struct Notice {
    pub summary: String,
    pub body: String,
    pub icon: String,
}

/// The remaining whole seconds of a phase.
pub open spec fn remaining_secs(m: PomodoroState) -> u64 {
    match m {
        PomodoroState::WorkTwentyFive(d) => d,
        PomodoroState::BreakFive(d) => d,
        PomodoroState::FifteenRelax(d) => d,
    }
}

/// The fixed full duration of each phase, in seconds.
pub open spec fn full_secs(target: Phase) -> u64 {
    match target {
        Phase::Work => WORK_FULL_SECS,
        Phase::Break => BREAK_FULL_SECS,
        Phase::Relax => RELAX_FULL_SECS,
    }
}

/// The phase a mode-select request lands on: `target` at its full duration.
pub open spec fn phase_at_full(target: Phase) -> PomodoroState {
    match target {
        Phase::Work => PomodoroState::WorkTwentyFive(WORK_FULL_SECS),
        Phase::Break => PomodoroState::BreakFive(BREAK_FULL_SECS),
        Phase::Relax => PomodoroState::FifteenRelax(RELAX_FULL_SECS),
    }
}

/// The session at startup and after a reset: Work at 25 minutes, idle.
pub open spec fn initial_session() -> Pomodoro {
    Pomodoro { mode: PomodoroState::WorkTwentyFive(WORK_FULL_SECS), state: TimeState::Idle }
}

/// The phase with one second taken off.
pub open spec fn decremented(m: PomodoroState) -> PomodoroState
    recommends
        remaining_secs(m) > 0,
{
    match m {
        PomodoroState::WorkTwentyFive(d) => PomodoroState::WorkTwentyFive((d - 1) as u64),
        PomodoroState::BreakFive(d) => PomodoroState::BreakFive((d - 1) as u64),
        PomodoroState::FifteenRelax(d) => PomodoroState::FifteenRelax((d - 1) as u64),
    }
}

/// The fixed rollover table: a finished Work phase leads to a Break, a
/// finished Break or Relax phase back to Work — all at 300 seconds, which
/// for Work is deliberately not its full duration.
pub open spec fn rollover(m: PomodoroState) -> PomodoroState {
    match m {
        PomodoroState::WorkTwentyFive(_) => PomodoroState::BreakFive(ROLLOVER_SECS),
        PomodoroState::BreakFive(_) => PomodoroState::WorkTwentyFive(ROLLOVER_SECS),
        PomodoroState::FifteenRelax(_) => PomodoroState::WorkTwentyFive(ROLLOVER_SECS),
    }
}

/// True when a tick finds the session ticking with nothing remaining, so
/// the phase completes and a notice is due.
pub open spec fn tick_completes(s: Pomodoro) -> bool {
    s.state is Ticking && remaining_secs(s.mode) == 0
}

/// The session after one tick at instant `now`: unchanged when idle; one
/// second off (and the tick stamped) while time remains; rolled over and
/// idle when the phase completes.
pub open spec fn tick_step(s: Pomodoro, now: u64) -> Pomodoro {
    if s.state is Idle {
        s
    } else if remaining_secs(s.mode) > 0 {
        Pomodoro { mode: decremented(s.mode), state: TimeState::Ticking { last_tick: now } }
    } else {
        Pomodoro { mode: rollover(s.mode), state: TimeState::Idle }
    }
}

/// The session after a toggle at instant `now`: idle becomes ticking with
/// the tick stamped `now`, ticking becomes idle; the phase never moves.
pub open spec fn toggle_step(s: Pomodoro, now: u64) -> Pomodoro {
    match s.state {
        TimeState::Idle => Pomodoro {
            mode: s.mode,
            state: TimeState::Ticking { last_tick: now },
        },
        TimeState::Ticking { .. } => Pomodoro { mode: s.mode, state: TimeState::Idle },
    }
}

/// The session after a mode-select: the target phase at its full duration,
/// the run state untouched.
pub open spec fn select_step(s: Pomodoro, target: Phase) -> Pomodoro {
    Pomodoro { mode: phase_at_full(target), state: s.state }
}

/// The session after any one shell event at instant `now`.
pub open spec fn step(s: Pomodoro, message: Message, now: u64) -> Pomodoro {
    match message {
        Message::Toggle => toggle_step(s, now),
        Message::Reset => initial_session(),
        Message::Tick => tick_step(s, now),
        Message::Work => select_step(s, Phase::Work),
        Message::Break => select_step(s, Phase::Break),
        Message::Relax => select_step(s, Phase::Relax),
    }
}

/// The phase's name.
pub open spec fn phase_label(m: PomodoroState) -> Seq<char> {
    match m {
        PomodoroState::WorkTwentyFive(_) => "Work"@,
        PomodoroState::BreakFive(_) => "Break"@,
        PomodoroState::FifteenRelax(_) => "Relax"@,
    }
}

/// The phase shown with its remaining time: the name, then `HH:MM:SS` in
/// parentheses.
pub open spec fn phase_display(m: PomodoroState) -> Seq<char> {
    phase_label(m) + " ("@ + clock_full(remaining_secs(m) as nat) + ")"@
}

/// The body of the notice for a phase that just finished.
pub open spec fn done_body(m: PomodoroState) -> Seq<char> {
    match m {
        PomodoroState::WorkTwentyFive(_) => "Work Done 🫂"@,
        PomodoroState::BreakFive(_) => "Break Done 🥖"@,
        PomodoroState::FifteenRelax(_) => "Relaxation Done 🔫"@,
    }
}

impl PomodoroState {
    /// The remaining whole seconds.
    pub fn seconds(&self) -> (s: u64)
        ensures
            s == remaining_secs(*self),
    {
        match self {
            PomodoroState::WorkTwentyFive(d) => *d,
            PomodoroState::BreakFive(d) => *d,
            PomodoroState::FifteenRelax(d) => *d,
        }
    }

    /// The phase's display text: its name with the remaining time, such as
    /// `Break (00:05:00)`.
    pub fn display_text(&self) -> (r: String)
        ensures
            r@ == phase_display(*self),
    {
        let mut out: String = match self {
            PomodoroState::WorkTwentyFive(_) => "Work".to_owned(),
            PomodoroState::BreakFive(_) => "Break".to_owned(),
            PomodoroState::FifteenRelax(_) => "Relax".to_owned(),
        };
        out.append(" (");
        let time = clock_full_text(self.seconds());
        out.append(time.as_str());
        out.append(")");
        proof {
            assert(out@ =~= phase_display(*self));
        }
        out
    }
}

impl Default for Pomodoro {
    /// The startup session: Work at its full 25 minutes, idle.
    fn default() -> (s: Self)
        ensures
            s == initial_session(),
    {
        Pomodoro { mode: PomodoroState::WorkTwentyFive(WORK_FULL_SECS), state: TimeState::Idle }
    }
}

impl Pomodoro {
    /// Start or pause the countdown: an idle session begins ticking with the
    /// last tick stamped `now`; a ticking session goes idle. The phase and
    /// its remaining time never move.
    pub fn toggle(&mut self, now: u64)
        ensures
            *final(self) == toggle_step(*old(self), now),
    {
        match self.state {
            TimeState::Idle => {
                self.state = TimeState::Ticking { last_tick: now };
            }
            TimeState::Ticking { .. } => {
                self.state = TimeState::Idle;
            }
        }
    }

    /// Drop whatever is in progress and return to the default session:
    /// Work at 25 minutes, idle.
    pub fn reset(&mut self)
        ensures
            *final(self) == initial_session(),
    {
        *self = Pomodoro {
            mode: PomodoroState::WorkTwentyFive(WORK_FULL_SECS),
            state: TimeState::Idle,
        };
    }

    /// Switch to `target` at its fixed full duration, whatever was remaining
    /// before. The run state is untouched: a ticking session keeps ticking
    /// against the new phase.
    pub fn select_mode(&mut self, target: Phase)
        ensures
            *final(self) == select_step(*old(self), target),
    {
        self.mode = match target {
            Phase::Work => PomodoroState::WorkTwentyFive(WORK_FULL_SECS),
            Phase::Break => PomodoroState::BreakFive(BREAK_FULL_SECS),
            Phase::Relax => PomodoroState::FifteenRelax(RELAX_FULL_SECS),
        };
    }

    /// Process one tick at instant `now`. Idle sessions are untouched. While
    /// time remains, exactly one second comes off and the tick is stamped.
    /// At zero remaining, the phase rolls over per the fixed table, the
    /// session goes idle, and the returned notice carries the new phase's
    /// display as its summary and the finished phase's message as its body.
    pub fn tick(&mut self, now: u64) -> (notice: Option<Notice>)
        ensures
            *final(self) == tick_step(*old(self), now),
            notice is Some <==> tick_completes(*old(self)),
            notice matches Some(n) ==> n.summary@ == phase_display(final(self).mode),
            notice matches Some(n) ==> n.body@ == done_body(old(self).mode),
            notice matches Some(n) ==> n.icon@ == "alarm-clock"@,
    {
        match self.state {
            TimeState::Idle => None,
            TimeState::Ticking { .. } => {
                let secs = self.mode.seconds();
                if secs > 0 {
                    self.mode = match self.mode {
                        PomodoroState::WorkTwentyFive(d) => PomodoroState::WorkTwentyFive(d - 1),
                        PomodoroState::BreakFive(d) => PomodoroState::BreakFive(d - 1),
                        PomodoroState::FifteenRelax(d) => PomodoroState::FifteenRelax(d - 1),
                    };
                    self.state = TimeState::Ticking { last_tick: now };
                    None
                } else {
                    let body: &str = match self.mode {
                        PomodoroState::WorkTwentyFive(_) => "Work Done 🫂",
                        PomodoroState::BreakFive(_) => "Break Done 🥖",
                        PomodoroState::FifteenRelax(_) => "Relaxation Done 🔫",
                    };
                    self.mode = match self.mode {
                        PomodoroState::WorkTwentyFive(_) => PomodoroState::BreakFive(ROLLOVER_SECS),
                        PomodoroState::BreakFive(_) => PomodoroState::WorkTwentyFive(ROLLOVER_SECS),
                        PomodoroState::FifteenRelax(_) => PomodoroState::WorkTwentyFive(
                            ROLLOVER_SECS,
                        ),
                    };
                    self.state = TimeState::Idle;
                    Some(
                        Notice {
                            summary: self.mode.display_text(),
                            body: body.to_owned(),
                            icon: "alarm-clock".to_owned(),
                        },
                    )
                }
            }
        }
    }

    /// Apply one shell event at instant `now`; the returned notice, present
    /// exactly when a tick completed the phase, is for the shell to deliver.
    pub fn update(&mut self, message: Message, now: u64) -> (notice: Option<Notice>)
        ensures
            *final(self) == step(*old(self), message, now),
            notice is Some <==> (message is Tick && tick_completes(*old(self))),
            notice matches Some(n) ==> n.summary@ == phase_display(final(self).mode),
            notice matches Some(n) ==> n.body@ == done_body(old(self).mode),
            notice matches Some(n) ==> n.icon@ == "alarm-clock"@,
    {
        match message {
            Message::Toggle => {
                self.toggle(now);
                None
            }
            Message::Reset => {
                self.reset();
                None
            }
            Message::Tick => self.tick(now),
            Message::Work => {
                self.select_mode(Phase::Work);
                None
            }
            Message::Break => {
                self.select_mode(Phase::Break);
                None
            }
            Message::Relax => {
                self.select_mode(Phase::Relax);
                None
            }
        }
    }

    /// The window title: the application name, an em dash, and the current
    /// phase's display text.
    pub fn title(&self) -> (r: String)
        ensures
            r@ == "Twenty Five and Five — "@ + phase_display(self.mode),
    {
        let mut out: String = "Twenty Five and Five — ".to_owned();
        let m = self.mode.display_text();
        out.append(m.as_str());
        proof {
            assert(out@ =~= "Twenty Five and Five — "@ + phase_display(self.mode));
        }
        out
    }

    /// The on-screen countdown: the remaining time as `MM:SS`, minutes
    /// within the hour.
    pub fn countdown_text(&self) -> (r: String)
        ensures
            r@ == clock_short(remaining_secs(self.mode) as nat),
    {
        clock_short_text(self.mode.seconds())
    }

    /// The toggle button's label: `Start` while idle, `Stop` while ticking.
    pub fn toggle_label(&self) -> (r: &'static str)
        ensures
            self.state is Idle ==> r@ == "Start"@,
            self.state is Ticking ==> r@ == "Stop"@,
    {
        match self.state {
            TimeState::Idle => "Start",
            TimeState::Ticking { .. } => "Stop",
        }
    }
}

/// Law: a tick on an idle session changes nothing.
pub proof fn lemma_tick_idle_is_noop(s: Pomodoro, now: u64)
    requires
        s.state is Idle,
    ensures
        tick_step(s, now) == s,
{
}

/// Law: while ticking with time remaining, one tick takes off exactly one
/// second, keeps the phase, and leaves the session ticking.
pub proof fn lemma_tick_decrements(s: Pomodoro, now: u64)
    requires
        s.state is Ticking,
        remaining_secs(s.mode) > 0,
    ensures
        tick_step(s, now).mode == decremented(s.mode),
        remaining_secs(tick_step(s, now).mode) == remaining_secs(s.mode) - 1,
        phase_label(tick_step(s, now).mode) == phase_label(s.mode),
        tick_step(s, now).state is Ticking,
{
    match s.mode {
        PomodoroState::WorkTwentyFive(_) => {},
        PomodoroState::BreakFive(_) => {},
        PomodoroState::FifteenRelax(_) => {},
    }
}

/// Law: a tick that finds the ticking phase at zero rolls over per the fixed
/// table — Work to Break, Break and Relax back to Work, all at 300 seconds —
/// and stops the countdown.
pub proof fn lemma_tick_rollover(s: Pomodoro, now: u64)
    requires
        s.state is Ticking,
        remaining_secs(s.mode) == 0,
    ensures
        tick_step(s, now) == (Pomodoro { mode: rollover(s.mode), state: TimeState::Idle }),
        s.mode is WorkTwentyFive ==> rollover(s.mode) == PomodoroState::BreakFive(300),
        s.mode is BreakFive ==> rollover(s.mode) == PomodoroState::WorkTwentyFive(300),
        s.mode is FifteenRelax ==> rollover(s.mode) == PomodoroState::WorkTwentyFive(300),
{
}

/// Law: a reset yields exactly the Work phase at 1500 seconds, idle, from
/// any state.
pub proof fn lemma_reset_is_default(s: Pomodoro, now: u64)
    ensures
        step(s, Message::Reset, now) == (Pomodoro {
            mode: PomodoroState::WorkTwentyFive(1500),
            state: TimeState::Idle,
        }),
{
}

/// Law: selecting a mode always lands on that mode's fixed full duration,
/// whatever was remaining before, and leaves the run state alone.
pub proof fn lemma_select_full_duration(s: Pomodoro, target: Phase)
    ensures
        select_step(s, target).mode == phase_at_full(target),
        remaining_secs(select_step(s, target).mode) == full_secs(target),
        select_step(s, target).state == s.state,
{
}

/// Law: toggling twice restores the run state — an idle session exactly, a
/// ticking session again ticking, restamped with the second toggle's
/// instant — and the phase never moves.
pub proof fn lemma_toggle_is_own_inverse(s: Pomodoro, now1: u64, now2: u64)
    ensures
        toggle_step(toggle_step(s, now1), now2).mode == s.mode,
        toggle_step(toggle_step(s, now1), now2).state is Idle <==> s.state is Idle,
        s.state is Idle ==> toggle_step(toggle_step(s, now1), now2) == s,
        s.state is Ticking ==> toggle_step(toggle_step(s, now1), now2).state == (TimeState::Ticking {
            last_tick: now2,
        }),
{
}

/// The shell's key map for key releases it has not otherwise placed: space
/// requests a toggle, `R` a reset, anything else nothing.
pub fn key_released(key: Key) -> (m: Option<Message>)
    ensures
        key is Space ==> m == Some(Message::Toggle),
        key is R ==> m == Some(Message::Reset),
        key is Other ==> m is None,
{
    match key {
        Key::Space => Some(Message::Toggle),
        Key::R => Some(Message::Reset),
        Key::Other => None,
    }
}

} // verus!
