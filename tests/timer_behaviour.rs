use timer::{
    count_digits, MAX_DURATION_DIGITS,
    choose_sound_location, choose_text, display_text, duration_from_arg, format_hms,
    presentation_for, Action, AlarmPlayer, AlarmState, Event, Key, KeyKind, PlayerAction,
    PlayerState, Presentation, Session, Setup, SoundLocation, StartupError, TextColor, TimeLeft,
    BANNER_MIN_WIDTH, DEFAULT_DURATION_SECS, POLL_INTERVAL_MS, QUIT_KEY, TICK_PERIOD_MS,
};

fn check(finished: bool) -> Event {
    Event::AlarmCheck { finished }
}

fn quit_press() -> Event {
    Event::Input { key: Key::Char(QUIT_KEY), kind: KeyKind::Press }
}

#[test]
fn formats_hours_minutes_seconds() {
    assert_eq!(format_hms(3661), "01:01:01");
    assert_eq!(format_hms(0), "00:00:00");
    assert_eq!(format_hms(359999), "99:59:59");
}

#[test]
fn formats_more_than_two_digits_of_hours() {
    assert_eq!(format_hms(360000), "100:00:00");
    assert_eq!(format_hms(59), "00:00:59");
    assert_eq!(format_hms(600), "00:10:00");
    assert_eq!(format_hms(u64::MAX), "5124095576030431:00:15");
}

#[test]
fn working_dir_sound_wins() {
    assert_eq!(choose_sound_location(true, true, false), Some(SoundLocation::WorkingDir));
    assert_eq!(choose_sound_location(true, true, true), Some(SoundLocation::WorkingDir));
}

#[test]
fn later_sound_locations_in_order() {
    assert_eq!(choose_sound_location(false, true, true), Some(SoundLocation::DataDir));
    assert_eq!(choose_sound_location(false, false, true), Some(SoundLocation::ExeDir));
    assert_eq!(choose_sound_location(false, false, false), None);
}

#[test]
fn two_second_countdown_with_broken_sound_exits() {
    let mut s = Session::new(TimeLeft::from_secs(2));
    assert_eq!(s.step(Event::Tick), Action::Nothing);
    assert_eq!(s.step(check(false)), Action::Nothing);
    assert_eq!(s.step(Event::Tick), Action::Nothing);
    assert!(s.remaining.is_zero());
    assert_eq!(s.alarm, AlarmState::Idle);
    assert_eq!(s.step(check(false)), Action::StartAlarm);
    assert_eq!(s.alarm, AlarmState::Playing);
    assert!(!s.should_exit);

    let mut p = AlarmPlayer::new();
    assert_eq!(p.start(Setup::DecodeFailed), PlayerAction::Finish);
    assert!(p.is_completed());

    assert_eq!(s.step(check(true)), Action::Nothing);
    assert!(s.should_exit);
    assert_eq!(s.alarm, AlarmState::Finished);
}

#[test]
fn quit_before_countdown_ends_exits_at_once() {
    let mut s = Session::new(TimeLeft::from_secs(60));
    for _ in 0..17 {
        s.step(Event::Tick);
        s.step(check(false));
    }
    assert_eq!(s.remaining.secs, 43);
    assert!(!s.should_exit);
    assert_eq!(s.step(quit_press()), Action::RequestStop);
    assert!(s.should_exit);
    assert!(s.stop_requested);
    assert_eq!(s.remaining.secs, 43);
}

#[test]
fn quit_ignored_on_release_and_other_keys() {
    let mut s = Session::new(TimeLeft::from_secs(5));
    let release = Event::Input { key: Key::Char(QUIT_KEY), kind: KeyKind::Release };
    assert_eq!(s.step(release), Action::Nothing);
    assert_eq!(s.step(Event::Input { key: Key::Char('x'), kind: KeyKind::Press }), Action::Nothing);
    assert_eq!(s.step(Event::Input { key: Key::Other, kind: KeyKind::Press }), Action::Nothing);
    assert!(!s.should_exit);
    let repeat = Event::Input { key: Key::Char(QUIT_KEY), kind: KeyKind::Repeat };
    assert_eq!(s.step(repeat), Action::RequestStop);
    assert!(s.should_exit);
}

#[test]
fn countdown_reaches_zero_and_alarm_starts_once() {
    for d in 0..5u64 {
        let mut s = Session::new(TimeLeft::from_secs(d));
        let mut started = 0;
        for _ in 0..d {
            s.step(Event::Tick);
        }
        assert!(s.remaining.is_zero());
        for _ in 0..30 {
            if s.step(check(false)) == Action::StartAlarm {
                started += 1;
            }
            s.step(Event::Tick);
        }
        assert_eq!(started, 1);
        assert_eq!(s.alarm, AlarmState::Playing);
        assert!(s.remaining.is_zero());
    }
}

#[test]
fn fractional_countdown_needs_one_more_tick() {
    let mut s = Session::new(TimeLeft::from_parts(1, 500_000_000));
    s.step(Event::Tick);
    assert_eq!(s.remaining, TimeLeft::from_parts(0, 500_000_000));
    assert_eq!(s.step(check(false)), Action::Nothing);
    s.step(Event::Tick);
    assert!(s.remaining.is_zero());
    assert_eq!(s.step(check(false)), Action::StartAlarm);
}

#[test]
fn remaining_frozen_once_alarm_starts() {
    let mut s = Session::new(TimeLeft::from_secs(3));
    let mut last = s.remaining.secs;
    for _ in 0..3 {
        s.step(Event::Tick);
        assert!(s.remaining.secs <= last);
        last = s.remaining.secs;
    }
    s.step(check(false));
    let frozen = s.remaining;
    for _ in 0..4 {
        s.step(Event::Tick);
        assert_eq!(s.remaining, frozen);
    }
}

#[test]
fn stop_request_ends_playback_at_next_poll() {
    let mut p = AlarmPlayer::new();
    assert_eq!(p.state, PlayerState::NotStarted);
    assert_eq!(p.start(Setup::Ready), PlayerAction::Poll);
    assert_eq!(p.poll(false, false), PlayerAction::WaitAndPoll);
    assert_eq!(p.poll(false, false), PlayerAction::WaitAndPoll);
    assert!(!p.is_completed());
    assert_eq!(p.poll(false, true), PlayerAction::StopAndFinish);
    assert!(p.is_completed());
    assert_eq!(POLL_INTERVAL_MS, 50);
}

#[test]
fn playback_ends_with_the_sound() {
    let mut p = AlarmPlayer::new();
    p.start(Setup::Ready);
    assert_eq!(p.poll(true, false), PlayerAction::StopAndFinish);
    assert_eq!(p.state, PlayerState::Completed);
}

#[test]
fn every_setup_failure_finishes_silently() {
    for setup in [Setup::NoOutputDevice, Setup::NoSink, Setup::OpenFailed, Setup::DecodeFailed] {
        let mut p = AlarmPlayer::new();
        assert_eq!(p.start(setup), PlayerAction::Finish);
        assert_eq!(p.state, PlayerState::Completed);
    }
}

#[test]
fn exit_only_on_quit_or_finished_alarm() {
    let mut s = Session::new(TimeLeft::from_secs(1));
    assert!(!s.should_exit);
    s.step(check(true));
    assert!(!s.should_exit);
    s.step(Event::Tick);
    s.step(check(false));
    assert_eq!(s.alarm, AlarmState::Playing);
    assert!(!s.should_exit);
    s.step(check(false));
    assert!(!s.should_exit);
    s.step(check(true));
    assert!(s.should_exit);
    assert!(!s.quit_pressed);
}

#[test]
fn quit_while_playing_requests_stop() {
    let mut s = Session::new(TimeLeft::from_secs(0));
    assert_eq!(s.step(check(false)), Action::StartAlarm);
    assert_eq!(s.step(quit_press()), Action::RequestStop);
    assert!(s.should_exit);
    assert_eq!(s.step(check(true)), Action::Nothing);
    assert_eq!(s.alarm, AlarmState::Finished);
}

#[test]
fn color_follows_alarm() {
    let mut s = Session::new(TimeLeft::from_secs(1));
    assert_eq!(s.text_color(), TextColor::Countdown);
    s.step(Event::Tick);
    assert_eq!(s.text_color(), TextColor::Countdown);
    s.step(check(false));
    assert_eq!(s.text_color(), TextColor::Alarm);
}

#[test]
fn narrow_terminal_shows_compact_text() {
    assert_eq!(presentation_for(BANNER_MIN_WIDTH - 1), Presentation::CompactText);
    assert_eq!(presentation_for(BANNER_MIN_WIDTH), Presentation::BannerText);
    assert_eq!(display_text(3661, 59), "01:01:01");
    let s = Session::new(TimeLeft::from_secs(3661));
    assert_eq!(s.text(20), "01:01:01");
}

#[test]
fn wide_terminal_shows_banner() {
    let banner = display_text(3661, 80);
    assert_ne!(banner, "01:01:01");
    assert!(banner.lines().count() > 1);
}

#[test]
fn banner_falls_back_to_compact_text() {
    assert_eq!(
        choose_text("00:00:01".to_string(), Presentation::BannerText, None),
        "00:00:01"
    );
    assert_eq!(
        choose_text("00:00:01".to_string(), Presentation::BannerText, Some("big".to_string())),
        "big"
    );
    assert_eq!(
        choose_text("00:00:01".to_string(), Presentation::CompactText, Some("big".to_string())),
        "00:00:01"
    );
}

#[test]
fn duration_argument_is_read() {
    assert_eq!(duration_from_arg(None), Ok(TimeLeft::from_secs(DEFAULT_DURATION_SECS)));
    assert_eq!(duration_from_arg(Some("30s")), Ok(TimeLeft::from_secs(30)));
    assert_eq!(duration_from_arg(Some("1h30m")), Ok(TimeLeft::from_secs(5400)));
    assert_eq!(duration_from_arg(Some("4.2s")), Ok(TimeLeft::from_parts(4, 200_000_000)));
    assert_eq!(duration_from_arg(Some("0")), Ok(TimeLeft::from_secs(0)));
}

#[test]
fn bad_duration_argument_is_refused() {
    assert_eq!(duration_from_arg(Some("soon")), Err(StartupError::InvalidDuration));
    assert_eq!(duration_from_arg(Some("")), Err(StartupError::InvalidDuration));
    assert_eq!(duration_from_arg(Some("5 parsecs")), Err(StartupError::InvalidDuration));
}

#[test]
fn startup_messages() {
    assert_eq!(
        StartupError::InvalidDuration.message(),
        "Invalid duration format. Examples: '30s', '1m', '1h30m'"
    );
    let m = StartupError::SoundNotFound.message();
    assert!(m.contains("./sound.mp3 (current directory)"));
    assert!(m.contains("<data_dir>/timer/sound.mp3"));
    assert!(m.contains("<executable_dir>/sound.mp3"));
}

#[test]
fn periods() {
    assert_eq!(TICK_PERIOD_MS, 1000);
    assert_eq!(timer::ALARM_CHECK_PERIOD_MS, 100);
}

#[test]
fn duration_text_with_too_many_digits_is_refused() {
    assert_eq!(
        duration_from_arg(Some("18446744073709551615s500ms500ms")),
        Err(StartupError::InvalidDuration)
    );
    assert_eq!(duration_from_arg(Some("123456789012s")), Err(StartupError::InvalidDuration));
    assert_eq!(
        duration_from_arg(Some("12345678901s")),
        Ok(TimeLeft::from_secs(12_345_678_901))
    );
    assert_eq!(MAX_DURATION_DIGITS, 11);
}

#[test]
fn digits_are_counted() {
    assert_eq!(count_digits(""), 0);
    assert_eq!(count_digits("1h 30m"), 3);
    assert_eq!(count_digits("µs 4.25"), 3);
}

#[test]
fn teardown_waits_for_playback() {
    let mut s = Session::new(TimeLeft::from_secs(0));
    assert!(!s.ready_to_end(false));
    assert_eq!(s.step(check(false)), Action::StartAlarm);
    assert_eq!(s.step(quit_press()), Action::RequestStop);
    assert!(s.should_exit);
    assert!(!s.ready_to_end(false));
    assert!(s.ready_to_end(true));
    s.step(check(true));
    assert!(s.ready_to_end(false));
}

#[test]
fn quit_before_alarm_ends_at_once() {
    let mut s = Session::new(TimeLeft::from_secs(10));
    s.step(quit_press());
    assert!(s.ready_to_end(false));
}
