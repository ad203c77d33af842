//! A countdown timer with an alarm: the countdown clock, the alarm playback
//! protocol, the exit rule and the rendering choices, each as a verified state
//! machine or function. The terminal, the audio device and the event loop stay
//! with the caller, which feeds events in and carries out the returned actions.

pub mod asset;
pub mod clock;
pub mod display;
pub mod player;
pub mod session;
pub mod startup;

pub use clock::{TimeLeft, NANOS_PER_SEC, TICK_PERIOD_MS};
pub use display::{
    choose_text, display_text, format_hms, presentation_for, Presentation, TextColor,
    BANNER_MIN_WIDTH,
};
pub use session::{
    next, Action, AlarmState, Event, Key, KeyKind, Session, ALARM_CHECK_PERIOD_MS, QUIT_KEY,
};
pub use asset::{choose_sound_location, SoundLocation, SOUND_FILE_NAME};
pub use player::{AlarmPlayer, PlayerAction, PlayerState, Setup, POLL_INTERVAL_MS};
pub use startup::{
    count_digits, duration_from_arg, StartupError, DEFAULT_DURATION_SECS, MAX_DURATION_DIGITS,
};
