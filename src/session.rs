use vstd::prelude::*;
use crate::clock::{TimeLeft, NANOS_PER_SEC};
use crate::display::{display_text, TextColor};

verus! {

/// The period of the check that starts the alarm and notices its end, in
/// milliseconds.
pub const ALARM_CHECK_PERIOD_MS: u64 = 100;

/// The key that quits the timer.
pub const QUIT_KEY: char = 'q';

/// Where the alarm stands.
#[derive(Clone, Copy, Debug, PartialEq, Eq, Structural)]
pub enum AlarmState {
    /// Counting down.
    Idle,
    /// The alarm has been started and has not been seen to finish.
    Playing,
    /// The alarm has finished, by itself or because it was stopped.
    Finished,
}

/// A key of the keyboard, as far as the timer tells keys apart.
#[derive(Clone, Copy, Debug, PartialEq, Eq, Structural)]
pub enum Key {
    Char(char),
    Other,
}

/// What happened to a key.
#[derive(Clone, Copy, Debug, PartialEq, Eq, Structural)]
pub enum KeyKind {
    Press,
    Repeat,
    Release,
}

/// What the session is told about.
#[derive(Clone, Copy, Debug, PartialEq, Eq, Structural)]
pub enum Event {
    /// One period of the countdown clock has passed.
    Tick,
    /// One period of the alarm check has passed; `finished` is what the playback
    /// task's finished flag reads now.
    AlarmCheck { finished: bool },
    /// A key event from the terminal.
    Input { key: Key, kind: KeyKind },
}

/// What the caller must do after a step.
#[derive(Clone, Copy, Debug, PartialEq, Eq, Structural)]
pub enum Action {
    Nothing,
    /// Start the alarm playback task.
    StartAlarm,
    /// Ask the playback task to stop.
    RequestStop,
}

/// One running timer: the countdown, the alarm and the decision to exit.
#[derive(Clone, Copy, Debug, PartialEq, Eq, Structural)]
pub struct Session {
    pub remaining: TimeLeft,
    pub alarm: AlarmState,
    /// The playback task has been asked to stop.
    pub stop_requested: bool,
    /// The quit key has been pressed.
    pub quit_pressed: bool,
    /// The session is over.
    pub should_exit: bool,
}

/// A key event that asks to quit: the quit key, pressed or repeated.
pub open spec fn is_quit(key: Key, kind: KeyKind) -> bool {
    key == Key::Char(QUIT_KEY) && kind != KeyKind::Release
}

/// The session after `e`, with the action that the caller must carry out.
pub open spec fn next(s: Session, e: Event) -> (Session, Action) {
    match e {
        Event::Tick => {
            if s.alarm == AlarmState::Idle && s.remaining.total_nanos() > 0 {
                (Session { remaining: s.remaining.spec_ticked_value(), ..s }, Action::Nothing)
            } else {
                (s, Action::Nothing)
            }
        },
        Event::AlarmCheck { finished } => {
            let starts = s.alarm == AlarmState::Idle && s.remaining.total_nanos() == 0;
            let alarm = if starts {
                AlarmState::Playing
            } else {
                s.alarm
            };
            let ends = alarm == AlarmState::Playing && finished;
            (
                Session {
                    alarm: if ends {
                        AlarmState::Finished
                    } else {
                        alarm
                    },
                    should_exit: s.should_exit || ends,
                    ..s
                },
                if starts {
                    Action::StartAlarm
                } else {
                    Action::Nothing
                },
            )
        },
        Event::Input { key, kind } => {
            if is_quit(key, kind) {
                (
                    Session { stop_requested: true, quit_pressed: true, should_exit: true, ..s },
                    Action::RequestStop,
                )
            } else {
                (s, Action::Nothing)
            }
        },
    }
}

/// The session that counts down from `duration`, before any event.
pub open spec fn initial(duration: TimeLeft) -> Session {
    Session {
        remaining: duration,
        alarm: AlarmState::Idle,
        stop_requested: false,
        quit_pressed: false,
        should_exit: false,
    }
}

/// The session after the events `evs`, one after the other.
pub open spec fn run(s: Session, evs: Seq<Event>) -> Session
    decreases evs.len(),
{
    if evs.len() == 0 {
        s
    } else {
        run(next(s, evs[0]).0, evs.drop_first())
    }
}

/// How many of the events `evs`, taken from `s` on, start the alarm.
pub open spec fn starts(s: Session, evs: Seq<Event>) -> nat
    decreases evs.len(),
{
    if evs.len() == 0 {
        0
    } else {
        let (s2, a) = next(s, evs[0]);
        (if a == Action::StartAlarm {
            1nat
        } else {
            0nat
        }) + starts(s2, evs.drop_first())
    }
}

/// `n` ticks of the clock and nothing else.
pub open spec fn ticks(n: nat) -> Seq<Event> {
    Seq::new(n, |i: int| Event::Tick)
}

/// The alarm state after the start check of an alarm check event: `Playing`
/// where the countdown has just run out.
pub open spec fn alarm_after_start_check(s: Session) -> AlarmState {
    if s.alarm == AlarmState::Idle && s.remaining.total_nanos() == 0 {
        AlarmState::Playing
    } else {
        s.alarm
    }
}

/// Whether the session may end now, given what the playback task's finished
/// flag reads: it is to end, and no playback is still under way.
pub open spec fn may_end(s: Session, playback_finished: bool) -> bool {
    s.should_exit && (s.alarm != AlarmState::Playing || playback_finished)
}

impl Session {
    /// The invariant of every state that a session reaches.
    pub open spec fn wf(&self) -> bool {
        &&& self.remaining.wf()
        &&& self.alarm != AlarmState::Idle ==> self.remaining.total_nanos() == 0
        &&& self.stop_requested == self.quit_pressed
        &&& self.should_exit == (self.quit_pressed || self.alarm == AlarmState::Finished)
    }

    /// A session that counts down from `duration`.
    pub fn new(duration: TimeLeft) -> (r: Self)
        requires
            duration.wf(),
        ensures
            r.wf(),
            r == initial(duration),
    {
        Session {
            remaining: duration,
            alarm: AlarmState::Idle,
            stop_requested: false,
            quit_pressed: false,
            should_exit: false,
        }
    }

    /// Takes one event and says what the caller must do about it.
    pub fn step(&mut self, e: Event) -> (a: Action)
        requires
            old(self).wf(),
        ensures
            final(self).wf(),
            (*final(self), a) == next(*old(self), e),
    {
        match e {
            Event::Tick => {
                if self.alarm == AlarmState::Idle && !self.remaining.is_zero() {
                    self.remaining = self.remaining.ticked();
                }
                Action::Nothing
            },
            Event::AlarmCheck { finished } => {
                let mut a = Action::Nothing;
                if self.alarm == AlarmState::Idle && self.remaining.is_zero() {
                    self.alarm = AlarmState::Playing;
                    a = Action::StartAlarm;
                }
                if self.alarm == AlarmState::Playing && finished {
                    self.alarm = AlarmState::Finished;
                    self.should_exit = true;
                }
                a
            },
            Event::Input { key, kind } => {
                if key == Key::Char(QUIT_KEY) && kind != KeyKind::Release {
                    self.stop_requested = true;
                    self.quit_pressed = true;
                    self.should_exit = true;
                    Action::RequestStop
                } else {
                    Action::Nothing
                }
            },
        }
    }

    /// Whether the caller may tear the session down now. Where playback was
    /// started and has not finished, teardown waits for the playback task to
    /// acknowledge the stop, which it does within one poll interval.
    pub fn ready_to_end(&self, playback_finished: bool) -> (r: bool)
        ensures
            r == may_end(*self, playback_finished),
    {
        self.should_exit && (self.alarm != AlarmState::Playing || playback_finished)
    }

    /// The color of the time: the countdown color until the alarm starts.
    pub fn text_color(&self) -> (r: TextColor)
        ensures
            r == (if self.alarm == AlarmState::Idle {
                TextColor::Countdown
            } else {
                TextColor::Alarm
            }),
    {
        if self.alarm == AlarmState::Idle {
            TextColor::Countdown
        } else {
            TextColor::Alarm
        }
    }

    /// The text of the time left, for a terminal `width` columns wide.
    pub fn text(&self, width: u16) -> (r: String)
        ensures
            r@ == crate::display::shown_text(
                crate::display::hms_text(self.remaining.secs as nat),
                crate::display::presentation_of(width),
                crate::display::banner_of(crate::display::hms_text(self.remaining.secs as nat)),
            ),
    {
        display_text(self.remaining.secs, width)
    }
}

/// Every step keeps the session's invariant.
pub proof fn lemma_next_keeps_wf(s: Session, e: Event)
    requires
        s.wf(),
    ensures
        next(s, e).0.wf(),
{
}

/// Running events one list after another is running them as one list, and the
/// alarm starts add up.
pub proof fn lemma_run_append(s: Session, a: Seq<Event>, b: Seq<Event>)
    ensures
        run(s, a + b) == run(run(s, a), b),
        starts(s, a + b) == starts(s, a) + starts(run(s, a), b),
    decreases a.len(),
{
    if a.len() == 0 {
        assert(a + b =~= b);
    } else {
        assert((a + b).drop_first() =~= a.drop_first() + b);
        lemma_run_append(next(s, a[0]).0, a.drop_first(), b);
    }
}

/// Every state that a session reaches from its start keeps the invariant.
pub proof fn lemma_reachable_wf(duration: TimeLeft, evs: Seq<Event>)
    requires
        duration.wf(),
    ensures
        run(initial(duration), evs).wf(),
{
    lemma_run_keeps_wf(initial(duration), evs);
}

/// A run of events keeps the session's invariant.
pub proof fn lemma_run_keeps_wf(s: Session, evs: Seq<Event>)
    requires
        s.wf(),
    ensures
        run(s, evs).wf(),
    decreases evs.len(),
{
    if evs.len() > 0 {
        lemma_run_keeps_wf(next(s, evs[0]).0, evs.drop_first());
    }
}

/// The time left never grows; once the alarm has started it no longer changes.
pub proof fn lemma_remaining_never_grows(s: Session, e: Event)
    requires
        s.wf(),
    ensures
        next(s, e).0.remaining.total_nanos() <= s.remaining.total_nanos(),
        s.alarm != AlarmState::Idle ==> next(s, e).0.remaining == s.remaining,
        next(s, e).0.alarm != AlarmState::Idle ==> next(s, e).0.remaining == s.remaining,
{
}

/// Over any run of events the time left never grows, and it is frozen from the
/// moment the alarm starts.
pub proof fn lemma_remaining_never_grows_over_run(s: Session, evs: Seq<Event>)
    requires
        s.wf(),
    ensures
        run(s, evs).remaining.total_nanos() <= s.remaining.total_nanos(),
        s.alarm != AlarmState::Idle ==> run(s, evs).remaining == s.remaining,
        s.alarm != AlarmState::Idle ==> run(s, evs).alarm != AlarmState::Idle,
    decreases evs.len(),
{
    if evs.len() > 0 {
        lemma_remaining_never_grows(s, evs[0]);
        lemma_remaining_never_grows_over_run(next(s, evs[0]).0, evs.drop_first());
    }
}

/// After `n` ticks with the alarm idle, the time left is `n` seconds less,
/// clamped at zero, and the alarm is still idle.
pub proof fn lemma_ticks(s: Session, n: nat)
    requires
        s.wf(),
        s.alarm == AlarmState::Idle,
    ensures
        run(s, ticks(n)).alarm == AlarmState::Idle,
        run(s, ticks(n)).remaining.total_nanos() == (if s.remaining.total_nanos() >= n
            * NANOS_PER_SEC as nat {
            (s.remaining.total_nanos() - n * NANOS_PER_SEC as nat) as nat
        } else {
            0
        }),
        starts(s, ticks(n)) == 0,
    decreases n,
{
    if n > 0 {
        let s2 = next(s, Event::Tick).0;
        assert(ticks(n).drop_first() =~= ticks((n - 1) as nat));
        assert(ticks(n)[0] == Event::Tick);
        lemma_ticks(s2, (n - 1) as nat);
        let k = NANOS_PER_SEC as nat;
        let m = (n - 1) as nat;
        assert(n * k == m * k + k) by (nonlinear_arith)
            requires
                n == m + 1,
        ;
    }
}

/// Once the alarm has left `Idle`, no event starts it again.
pub proof fn lemma_no_start_after_idle(s: Session, evs: Seq<Event>)
    requires
        s.wf(),
        s.alarm != AlarmState::Idle,
    ensures
        starts(s, evs) == 0,
    decreases evs.len(),
{
    if evs.len() > 0 {
        lemma_no_start_after_idle(next(s, evs[0]).0, evs.drop_first());
    }
}

/// Over any run of events the alarm starts at most once.
pub proof fn lemma_alarm_starts_at_most_once(s: Session, evs: Seq<Event>)
    requires
        s.wf(),
    ensures
        starts(s, evs) <= 1,
    decreases evs.len(),
{
    if evs.len() > 0 {
        let (s2, a) = next(s, evs[0]);
        if a == Action::StartAlarm {
            lemma_no_start_after_idle(s2, evs.drop_first());
        } else {
            lemma_alarm_starts_at_most_once(s2, evs.drop_first());
        }
    }
}

/// Counting down from `d` whole seconds: after `d` ticks nothing is left, the
/// next alarm check starts the alarm, and whatever follows, it is started
/// exactly once.
pub proof fn lemma_countdown_starts_alarm_once(d: u64, rest: Seq<Event>)
    ensures
        ({
            let s0 = initial(TimeLeft { secs: d, nanos: 0 });
            let check = seq![Event::AlarmCheck { finished: false }];
            &&& run(s0, ticks(d as nat)).remaining.total_nanos() == 0
            &&& run(s0, ticks(d as nat)).alarm == AlarmState::Idle
            &&& run(s0, ticks(d as nat) + check).alarm == AlarmState::Playing
            &&& starts(s0, ticks(d as nat) + check + rest) == 1
        }),
{
    let s0 = initial(TimeLeft { secs: d, nanos: 0 });
    let check = seq![Event::AlarmCheck { finished: false }];
    lemma_ticks(s0, d as nat);
    let s1 = run(s0, ticks(d as nat));
    lemma_run_keeps_wf(s0, ticks(d as nat));
    lemma_run_append(s0, ticks(d as nat), check);
    assert(check.drop_first() =~= Seq::<Event>::empty());
    assert(check[0] == Event::AlarmCheck { finished: false });
    let s2 = next(s1, check[0]).0;
    assert(run(s2, check.drop_first()) == s2);
    assert(starts(s2, check.drop_first()) == 0);
    assert(run(s1, check) == s2);
    assert(starts(s1, check) == 1);
    lemma_run_append(s0, ticks(d as nat) + check, rest);
    lemma_run_keeps_wf(s1, check);
    lemma_no_start_after_idle(s2, rest);
}

/// The session is to end after an event exactly when it already was, the event
/// is the quit key, or the event is an alarm check that finds the alarm playing
/// and its finished flag set.
pub proof fn lemma_exit_rule(s: Session, e: Event)
    requires
        s.wf(),
    ensures
        next(s, e).0.should_exit == (s.should_exit || (match e {
            Event::Input { key, kind } => is_quit(key, kind),
            Event::AlarmCheck { finished } => alarm_after_start_check(s) == AlarmState::Playing
                && finished,
            Event::Tick => false,
        })),
        next(s, e).0.should_exit == (next(s, e).0.quit_pressed || next(s, e).0.alarm
            == AlarmState::Finished),
{
}

/// A session that is to end waits only for playback under way: once the
/// playback task's finished flag is set, the next alarm check lets it end, and
/// nothing else holds it back.
pub proof fn lemma_end_waits_only_for_playback(s: Session)
    requires
        s.wf(),
        s.should_exit,
    ensures
        s.alarm != AlarmState::Playing ==> may_end(s, false),
        may_end(next(s, Event::AlarmCheck { finished: true }).0, false),
        may_end(s, true),
{
}

} // verus!
