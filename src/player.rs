use vstd::prelude::*;

verus! {

/// How long the playback task waits between two looks at the stop flag and the
/// sound, in milliseconds.
pub const POLL_INTERVAL_MS: u64 = 50;

/// Where the playback task stands.
#[derive(Clone, Copy, Debug, PartialEq, Eq, Structural)]
pub enum PlayerState {
    NotStarted,
    Running,
    Completed,
}

/// How far the playback task got in setting up the sound.
#[derive(Clone, Copy, Debug, PartialEq, Eq, Structural)]
pub enum Setup {
    /// The sound is decoded and queued on an output device.
    Ready,
    /// No audio output device could be opened.
    NoOutputDevice,
    /// The output device would not take a queue of sounds.
    NoSink,
    /// The sound file could not be opened.
    OpenFailed,
    /// The sound file could not be decoded.
    DecodeFailed,
}

/// What the playback task must do next.
#[derive(Clone, Copy, Debug, PartialEq, Eq, Structural)]
pub enum PlayerAction {
    /// Look at the sound and the stop flag now, and report with `poll`.
    Poll,
    /// Wait one poll interval, then look again and report with `poll`.
    WaitAndPoll,
    /// Stop the sound, release the device and set the finished flag.
    StopAndFinish,
    /// Nothing plays: release what was opened and set the finished flag.
    Finish,
}

/// The alarm playback task: it plays the sound once, until the sound ends or it
/// is asked to stop, and then reports that it has finished.
#[derive(Clone, Copy, Debug, PartialEq, Eq, Structural)]
pub struct AlarmPlayer {
    pub state: PlayerState,
}

/// The state and action after setting up the sound.
pub open spec fn after_setup(setup: Setup) -> (PlayerState, PlayerAction) {
    if setup == Setup::Ready {
        (PlayerState::Running, PlayerAction::Poll)
    } else {
        (PlayerState::Completed, PlayerAction::Finish)
    }
}

/// The state and action after a look at the sound and the stop flag.
pub open spec fn after_poll(sound_done: bool, stop_requested: bool) -> (PlayerState, PlayerAction) {
    if sound_done || stop_requested {
        (PlayerState::Completed, PlayerAction::StopAndFinish)
    } else {
        (PlayerState::Running, PlayerAction::WaitAndPoll)
    }
}

impl AlarmPlayer {
    pub fn new() -> (r: Self)
        ensures
            r.state == PlayerState::NotStarted,
    {
        AlarmPlayer { state: PlayerState::NotStarted }
    }

    /// Reports how setting up the sound went. Any failure is no error: the
    /// alarm then plays nothing and finishes at once.
    pub fn start(&mut self, setup: Setup) -> (a: PlayerAction)
        requires
            old(self).state == PlayerState::NotStarted,
        ensures
            (final(self).state, a) == after_setup(setup),
    {
        if setup == Setup::Ready {
            self.state = PlayerState::Running;
            PlayerAction::Poll
        } else {
            self.state = PlayerState::Completed;
            PlayerAction::Finish
        }
    }

    /// Reports whether the sound has played to its end and whether a stop was
    /// asked for.
    pub fn poll(&mut self, sound_done: bool, stop_requested: bool) -> (a: PlayerAction)
        requires
            old(self).state == PlayerState::Running,
        ensures
            (final(self).state, a) == after_poll(sound_done, stop_requested),
    {
        if sound_done || stop_requested {
            self.state = PlayerState::Completed;
            PlayerAction::StopAndFinish
        } else {
            PlayerAction::WaitAndPoll
        }
    }

    /// The task has finished and set its finished flag.
    pub fn is_completed(&self) -> (r: bool)
        ensures
            r == (self.state == PlayerState::Completed),
    {
        self.state == PlayerState::Completed
    }
}

/// A stop asked for while the sound plays is obeyed at the next look, that is
/// within one poll interval, however much of the sound is left: the task stops
/// the sound and sets its finished flag.
pub proof fn lemma_stop_obeyed_at_next_poll(sound_done: bool)
    ensures
        after_poll(sound_done, true) == (PlayerState::Completed, PlayerAction::StopAndFinish),
{
}

/// The finished flag is set once: every action that sets it leaves the task
/// completed, and a completed task takes no more reports.
pub proof fn lemma_finish_is_final(setup: Setup, sound_done: bool, stop_requested: bool)
    ensures
        after_setup(setup).1 == PlayerAction::Finish <==> after_setup(setup).0
            == PlayerState::Completed,
        after_poll(sound_done, stop_requested).1 == PlayerAction::StopAndFinish <==> after_poll(
            sound_done,
            stop_requested,
        ).0 == PlayerState::Completed,
{
}

} // verus!
