//! The touch pads, and the session that looks after them.

use tube_lamp::color::Palette;
use tube_lamp::command::Command;
use tube_lamp::lamp::lamp_advance;
use tube_lamp::lamp::LampState;
use tube_lamp::mode::LampMode;
use tube_lamp::session::Action;
use tube_lamp::session::Session;
use tube_lamp::touch::touch_sensor_tick;
use tube_lamp::touch::touch_thresholds;
use tube_lamp::touch::TouchPadCall;
use tube_lamp::touch::TouchState;

const THRESHOLDS: Option<(u16, u16)> = Some((400, 300));
const IDLE: Option<(u16, u16)> = Some((600, 450));
const MODE: Option<(u16, u16)> = Some((399, 300));
const BRIGHT: Option<(u16, u16)> = Some((400, 299));
const BOTH: Option<(u16, u16)> = Some((0, 0));

#[test]
fn new_touch_state_matches_a_new_lamp() {
    assert_eq!(
        TouchState::new(),
        TouchState {
            is_touched_mode: false,
            is_touched_bright: false,
            current_lamp_mode: LampMode::Off,
            current_warm_brightness: 51,
        }
    );
    let palette = Palette::new();
    let lamp = LampState::new(&palette);
    assert_eq!(lamp.mode, TouchState::new().current_lamp_mode);
    assert_eq!(lamp.color, palette.warm(TouchState::new().current_warm_brightness));
}

#[test]
fn mode_pad_goes_through_the_modes() {
    let mut state = TouchState::new();
    for mode in [LampMode::Color, LampMode::Rainbow, LampMode::Space, LampMode::Off, LampMode::Color] {
        assert_eq!(touch_sensor_tick(THRESHOLDS, &mut state, MODE, &[]), vec![Command::Mode(mode)]);
        assert!(state.is_touched_mode);
        assert_eq!(state.current_lamp_mode, mode);
        // held
        assert_eq!(touch_sensor_tick(THRESHOLDS, &mut state, MODE, &[]), vec![]);
        // let go
        assert_eq!(touch_sensor_tick(THRESHOLDS, &mut state, IDLE, &[]), vec![]);
        assert!(!state.is_touched_mode);
    }
}

#[test]
fn brightness_pad_goes_through_the_levels() {
    let mut state = TouchState::new();
    for level in [102u8, 153, 204, 255, 0, 51, 102] {
        assert_eq!(
            touch_sensor_tick(THRESHOLDS, &mut state, BRIGHT, &[]),
            vec![Command::Mode(LampMode::Color), Command::Warm(level)]
        );
        assert!(state.is_touched_bright);
        assert_eq!(state.current_lamp_mode, LampMode::Color);
        assert_eq!(state.current_warm_brightness, level);
        assert_eq!(touch_sensor_tick(THRESHOLDS, &mut state, BRIGHT, &[]), vec![]);
        assert_eq!(touch_sensor_tick(THRESHOLDS, &mut state, IDLE, &[]), vec![]);
        assert!(!state.is_touched_bright);
    }
}

#[test]
fn brightness_in_between_goes_up_to_the_brightest() {
    for (level, next) in [(0u8, 51u8), (1, 52), (203, 254), (204, 255), (205, 255), (254, 255), (255, 0)] {
        let mut state = TouchState { current_warm_brightness: level, ..TouchState::new() };
        touch_sensor_tick(THRESHOLDS, &mut state, BRIGHT, &[]);
        assert_eq!(state.current_warm_brightness, next);
    }
}

#[test]
fn both_pads_at_once() {
    let mut state = TouchState::new();
    assert_eq!(
        touch_sensor_tick(THRESHOLDS, &mut state, BOTH, &[]),
        vec![Command::Mode(LampMode::Color), Command::Mode(LampMode::Color), Command::Warm(102)]
    );
    assert_eq!(touch_sensor_tick(THRESHOLDS, &mut state, BOTH, &[]), vec![]);
}

#[test]
fn pads_are_silent_without_thresholds_or_values() {
    let mut state = TouchState { is_touched_mode: true, ..TouchState::new() };
    let before = state;
    assert_eq!(touch_sensor_tick(None, &mut state, BOTH, &[]), vec![]);
    assert_eq!(touch_sensor_tick(THRESHOLDS, &mut state, None, &[]), vec![]);
    assert_eq!(state, before);
}

#[test]
fn received_commands_are_noted_and_passed_on() {
    let mut state = TouchState::new();
    let received = [
        Command::Rgb(1, 2, 3),
        Command::Mode(LampMode::Space),
        Command::Warm(9),
        Command::Progress(4),
        Command::Mode(LampMode::Progress),
    ];
    let mut expected = vec![Command::Mode(LampMode::Color)];
    expected.extend_from_slice(&received);
    assert_eq!(touch_sensor_tick(THRESHOLDS, &mut state, MODE, &received), expected);
    assert_eq!(state.current_lamp_mode, LampMode::Progress);
    assert_eq!(state.current_warm_brightness, 9);
    touch_sensor_tick(THRESHOLDS, &mut state, IDLE, &[]);
    // the next touch goes on from what was noted
    assert_eq!(touch_sensor_tick(THRESHOLDS, &mut state, MODE, &[]), vec![Command::Mode(LampMode::Off)]);
}

#[test]
fn lamp_follows_the_pads() {
    let palette = Palette::new();
    let mut lamp = LampState::new(&palette);
    let mut touch = TouchState::new();
    for values in [MODE, IDLE, MODE, IDLE, MODE, IDLE, MODE, IDLE] {
        let sent = touch_sensor_tick(THRESHOLDS, &mut touch, values, &[]);
        lamp_advance(&mut lamp, &sent, &palette);
        assert_eq!(lamp.mode, touch.current_lamp_mode);
    }
    // made dark by the brightness pad, the lamp is off while the pad's side says color
    let mut touch = TouchState { current_warm_brightness: 255, ..touch };
    let sent = touch_sensor_tick(THRESHOLDS, &mut touch, BRIGHT, &[]);
    lamp_advance(&mut lamp, &sent, &palette);
    assert_eq!((lamp.mode, touch.current_lamp_mode), (LampMode::Off, LampMode::Color));
}

#[test]
fn thresholds_are_two_thirds() {
    assert_eq!(touch_thresholds(600, 451), (400, 300));
    assert_eq!(touch_thresholds(0, 1), (0, 0));
    assert_eq!(touch_thresholds(32767, 2), (21844, 1));
    let mut state = TouchState::new();
    let thresholds = touch_thresholds(600, 0);
    assert_eq!(touch_sensor_tick(Some(thresholds), &mut state, Some((600, 0)), &[]), vec![]);
}

#[test]
fn pads_are_set_up_call_by_call() {
    let mut calls = vec![TouchPadCall::Init];
    while let Ok(Some(next)) = calls[calls.len() - 1].then_call(0) {
        calls.push(next);
    }
    assert_eq!(
        calls,
        vec![
            TouchPadCall::Init,
            TouchPadCall::SetVoltage,
            TouchPadCall::ConfigMode,
            TouchPadCall::ConfigBright,
            TouchPadCall::StartFilter,
            TouchPadCall::ReadMode,
            TouchPadCall::ReadBright,
        ]
    );
    assert!(matches!(TouchPadCall::ReadBright.then_call(0), Ok(None)));
}

#[test]
fn readings_keep_their_places_in_the_pair() {
    let (next, values) = TouchPadCall::ReadMode.then_read(0, 600, (1, 2)).unwrap();
    assert_eq!((next, values), (Some(TouchPadCall::ReadBright), (600, 2)));
    let (next, values) = TouchPadCall::ReadBright.then_read(0, 450, values).unwrap();
    assert_eq!((next, values), (None, (600, 450)));
    for call in [
        TouchPadCall::Init,
        TouchPadCall::SetVoltage,
        TouchPadCall::ConfigMode,
        TouchPadCall::ConfigBright,
        TouchPadCall::StartFilter,
    ] {
        let (next, values) = call.then_read(0, 9, (1, 2)).unwrap();
        assert_eq!(next, call.then_call(0).unwrap());
        assert_eq!(values, (1, 2));
    }
    let err = TouchPadCall::ReadBright.then_read(263, 450, (600, 0)).unwrap_err();
    assert_eq!((err.code, err.msg), (263, "Touch pad 1 filtered read failed."));
}

#[test]
fn failed_calls_are_reported() {
    let failures = [
        (TouchPadCall::Init, "Touch pad init failed."),
        (TouchPadCall::SetVoltage, "Touch pad set voltage failed."),
        (TouchPadCall::ConfigMode, "Touch pad 0 config failed."),
        (TouchPadCall::ConfigBright, "Touch pad 1 config failed."),
        (TouchPadCall::StartFilter, "Touch pad filter start failed."),
        (TouchPadCall::ReadMode, "Touch pad 0 filtered read failed."),
        (TouchPadCall::ReadBright, "Touch pad 1 filtered read failed."),
    ];
    for (call, msg) in failures {
        for code in [-1, 1, 259] {
            let err = call.then_call(code).unwrap_err();
            assert_eq!((err.code, err.msg), (code, msg));
        }
    }
}

#[test]
fn session_subscribes_to_every_topic_first() {
    let mut session = Session::new();
    for topic in [
        "lamps/tube/mode",
        "lamps/tube/rgb",
        "lamps/tube/hsv",
        "lamps/tube/hex",
        "lamps/tube/warm",
        "lamps/tube/progress",
        "lamps/tube/wheel_speed",
    ] {
        assert!(matches!(session.action(), Action::Subscribe(t) if t == topic));
        // a failure is tried again half a second later
        session.proceed(false);
        assert!(matches!(session.action(), Action::Wait(500)));
        session.proceed(true);
        assert!(matches!(session.action(), Action::Subscribe(t) if t == topic));
        session.proceed(true);
    }
    for _ in 0..3 {
        assert!(matches!(session.action(), Action::Tick));
        session.proceed(true);
        assert!(matches!(session.action(), Action::Wait(10)));
        session.proceed(true);
    }
}

#[test]
fn session_stops_when_the_clock_fails() {
    let mut session = Session::new();
    session.proceed(false);
    session.proceed(false);
    assert!(matches!(session.action(), Action::Stop));
    session.proceed(true);
    assert!(matches!(session.action(), Action::Stop));

    let mut session = Session::new();
    for _ in 0..8 {
        session.proceed(true);
    }
    assert!(matches!(session.action(), Action::Wait(10)));
    session.proceed(false);
    assert!(matches!(session.action(), Action::Stop));
}
