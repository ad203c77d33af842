use vstd::prelude::*;
use crate::clock::{TimeLeft, NANOS_PER_SEC};

verus! {

/// The countdown when no duration is given, in seconds.
pub const DEFAULT_DURATION_SECS: u64 = 60;

#[verifier::external_type_specification]
#[verifier::external_body]
pub struct ExDurationError(humantime::DurationError);

/// The duration that a human-readable text such as `1h30m` stands for, as
/// whole seconds and nanoseconds, where the text is one.
pub uninterp spec fn parsed_duration(text: Seq<char>) -> Option<(u64, u32)>;

/// The most decimal digits that a duration text may hold.
pub const MAX_DURATION_DIGITS: usize = 11;

pub open spec fn is_decimal_digit(c: char) -> bool {
    '0' <= c && c <= '9'
}

/// How many decimal digits `text` holds.
pub open spec fn digit_count(text: Seq<char>) -> nat
    decreases text.len(),
{
    if text.len() == 0 {
        0
    } else {
        digit_count(text.drop_last()) + if is_decimal_digit(text.last()) {
            1nat
        } else {
            0nat
        }
    }
}

/// A duration text short enough in digits that every total it can add up to
/// stays far below the largest number of seconds: each part contributes less than
/// its number plus one times a year's seconds, so at most about 3.3e18 seconds.
pub open spec fn duration_text_in_range(text: Seq<char>) -> bool {
    digit_count(text) <= MAX_DURATION_DIGITS
}

/// Relies on humantime::parse_duration: it reads a duration from `text` alone,
/// or fails. The nanosecond part is `Duration::subsec_nanos`, below one second.
/// Texts with more than `MAX_DURATION_DIGITS` digits are left out: on a sum that
/// reaches the largest number of seconds, the parser's carry of exactly one
/// second of nanoseconds goes to `Duration::new`, which panics.
#[verifier::external_body]
fn parse_human_duration(text: &str) -> (r: Result<(u64, u32), humantime::DurationError>)
    requires
        duration_text_in_range(text@),
    ensures
        match r {
            Ok(v) => parsed_duration(text@) == Some(v) && v.1 < NANOS_PER_SEC,
            Err(_) => parsed_duration(text@).is_none(),
        },
{
    match humantime::parse_duration(text) {
        Ok(d) => Ok((d.as_secs(), d.subsec_nanos())),
        Err(e) => Err(e),
    }
}

/// Why the timer cannot start.
#[derive(Clone, Copy, Debug, PartialEq, Eq, Structural)]
pub enum StartupError {
    /// The duration given is not a human-readable duration.
    InvalidDuration,
    /// No place holds the alarm sound.
    SoundNotFound,
}

impl StartupError {
    /// The message shown to the user.
    pub fn message(&self) -> (r: String)
        ensures
            r@ == (match self {
                StartupError::InvalidDuration => "Invalid duration format. Examples: '30s', '1m', '1h30m'"@,
                StartupError::SoundNotFound => "Could not find sound.mp3 in any of these locations:\n  - ./sound.mp3 (current directory)\n  - <data_dir>/timer/sound.mp3\n  - <executable_dir>/sound.mp3"@,
            }),
    {
        match self {
            StartupError::InvalidDuration => String::from_str(
                "Invalid duration format. Examples: '30s', '1m', '1h30m'",
            ),
            StartupError::SoundNotFound => String::from_str(
                "Could not find sound.mp3 in any of these locations:\n  - ./sound.mp3 (current directory)\n  - <data_dir>/timer/sound.mp3\n  - <executable_dir>/sound.mp3",
            ),
        }
    }
}

/// Counts the decimal digits of `text`.
pub fn count_digits(text: &str) -> (r: usize)
    ensures
        r == digit_count(text@),
{
    let n = text.unicode_len();
    let mut count: usize = 0;
    let mut i: usize = 0;
    while i < n
        invariant
            n == text@.len(),
            i <= n,
            count <= i,
            count == digit_count(text@.subrange(0, i as int)),
        decreases n - i,
    {
        let c = text.get_char(i);
        assert(text@.subrange(0, i + 1).drop_last() =~= text@.subrange(0, i as int));
        if '0' <= c && c <= '9' {
            count = count + 1;
        }
        i = i + 1;
    }
    assert(text@.subrange(0, n as int) =~= text@);
    count
}

/// The countdown asked for by the optional duration argument: the default where
/// there is none, what the text reads as where it is a duration with at most
/// `MAX_DURATION_DIGITS` digits, an error where it is not.
pub fn duration_from_arg(arg: Option<&str>) -> (r: Result<TimeLeft, StartupError>)
    ensures
        match arg {
            None => r == Ok::<TimeLeft, StartupError>(
                TimeLeft { secs: DEFAULT_DURATION_SECS, nanos: 0 },
            ),
            Some(text) => if !duration_text_in_range(text@) {
                r == Err::<TimeLeft, StartupError>(StartupError::InvalidDuration)
            } else {
                match parsed_duration(text@) {
                    Some((secs, nanos)) => r == Ok::<TimeLeft, StartupError>(
                        TimeLeft { secs, nanos },
                    ),
                    None => r == Err::<TimeLeft, StartupError>(StartupError::InvalidDuration),
                }
            },
        },
        r matches Ok(t) ==> t.wf(),
{
    match arg {
        None => Ok(TimeLeft::from_secs(DEFAULT_DURATION_SECS)),
        Some(text) => {
            if count_digits(text) > MAX_DURATION_DIGITS {
                return Err(StartupError::InvalidDuration);
            }
            match parse_human_duration(text) {
                Ok((secs, nanos)) => Ok(TimeLeft::from_parts(secs, nanos)),
                Err(_) => Err(StartupError::InvalidDuration),
            }
        },
    }
}

} // verus!
