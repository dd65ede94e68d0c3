//! The two touch pads: how they are set up, and what touching them does.

use vstd::prelude::*;

use crate::color::DEFAULT_BRIGHTNESS;
use crate::command::Command;
use crate::mode::LampMode;

verus! {

/// The code with which a touch pad call reports success.
pub const ESP_OK: i32 = 0;

/// How much brighter a touch on the brightness pad makes the lamp, a fifth of the
/// greatest brightness.
pub const BRIGHTNESS_STEP: u8 = 51;

/// A touch pad call that failed.
#[derive(Debug, Clone, Copy)]
pub struct TouchPadErr {
    pub code: i32,
    pub msg: &'static str,
}

/// One call to the touch pad driver. The first pad switches modes, the second one
/// brightness.
#[derive(Debug, Clone, Copy, PartialEq, Eq, Structural)]
pub enum TouchPadCall {
    Init,
    SetVoltage,
    ConfigMode,
    ConfigBright,
    StartFilter,
    ReadMode,
    ReadBright,
}

impl TouchPadCall {
    /// What is reported when the call fails.
    pub open spec fn failure(self) -> Seq<char> {
        match self {
            TouchPadCall::Init => "Touch pad init failed."@,
            TouchPadCall::SetVoltage => "Touch pad set voltage failed."@,
            TouchPadCall::ConfigMode => "Touch pad 0 config failed."@,
            TouchPadCall::ConfigBright => "Touch pad 1 config failed."@,
            TouchPadCall::StartFilter => "Touch pad filter start failed."@,
            TouchPadCall::ReadMode => "Touch pad 0 filtered read failed."@,
            TouchPadCall::ReadBright => "Touch pad 1 filtered read failed."@,
        }
    }

    /// The call that follows when this one has succeeded. Setting up the pads starts
    /// with `Init`, reading them with `ReadMode`; both end with `ReadBright`.
    pub open spec fn successor(self) -> Option<TouchPadCall> {
        match self {
            TouchPadCall::Init => Some(TouchPadCall::SetVoltage),
            TouchPadCall::SetVoltage => Some(TouchPadCall::ConfigMode),
            TouchPadCall::ConfigMode => Some(TouchPadCall::ConfigBright),
            TouchPadCall::ConfigBright => Some(TouchPadCall::StartFilter),
            TouchPadCall::StartFilter => Some(TouchPadCall::ReadMode),
            TouchPadCall::ReadMode => Some(TouchPadCall::ReadBright),
            TouchPadCall::ReadBright => None,
        }
    }

    /// What the pads have read, mode pad first, when this call has read a value. A call that
    /// reads no pad leaves alone what was read before.
    pub open spec fn readings(self, value: u16, values: (u16, u16)) -> (u16, u16) {
        match self {
            TouchPadCall::ReadMode => (value, values.1),
            TouchPadCall::ReadBright => (values.0, value),
            _ => values,
        }
    }

    fn failure_message(self) -> (msg: &'static str)
        ensures
            msg@ == self.failure(),
    {
        match self {
            TouchPadCall::Init => "Touch pad init failed.",
            TouchPadCall::SetVoltage => "Touch pad set voltage failed.",
            TouchPadCall::ConfigMode => "Touch pad 0 config failed.",
            TouchPadCall::ConfigBright => "Touch pad 1 config failed.",
            TouchPadCall::StartFilter => "Touch pad filter start failed.",
            TouchPadCall::ReadMode => "Touch pad 0 filtered read failed.",
            TouchPadCall::ReadBright => "Touch pad 1 filtered read failed.",
        }
    }

    /// Goes on from a call that has returned the given code: to the next call, to the
    /// end, or out with an error.
    pub fn then_call(self, code: i32) -> (next: Result<Option<TouchPadCall>, TouchPadErr>)
        ensures
            match next {
                Ok(next) => code == ESP_OK && next == self.successor(),
                Err(err) => code != ESP_OK && err.code == code && err.msg@ == self.failure(),
            },
    {
        if code != ESP_OK {
            return Err(TouchPadErr { code, msg: self.failure_message() });
        }
        Ok(
            match self {
                TouchPadCall::Init => Some(TouchPadCall::SetVoltage),
                TouchPadCall::SetVoltage => Some(TouchPadCall::ConfigMode),
                TouchPadCall::ConfigMode => Some(TouchPadCall::ConfigBright),
                TouchPadCall::ConfigBright => Some(TouchPadCall::StartFilter),
                TouchPadCall::StartFilter => Some(TouchPadCall::ReadMode),
                TouchPadCall::ReadMode => Some(TouchPadCall::ReadBright),
                TouchPadCall::ReadBright => None,
            },
        )
    }

    /// Goes on from a call that has returned the given code and has read the given value, if
    /// it is one that reads, and keeps what the pads have read so far, mode pad first.
    pub fn then_read(self, code: i32, value: u16, values: (u16, u16)) -> (next: Result<
        (Option<TouchPadCall>, (u16, u16)),
        TouchPadErr,
    >)
        ensures
            match next {
                Ok((next, readings)) => code == ESP_OK && next == self.successor() && readings
                    == self.readings(value, values),
                Err(err) => code != ESP_OK && err.code == code && err.msg@ == self.failure(),
            },
    {
        match self.then_call(code) {
            Ok(next) => {
                let readings = match self {
                    TouchPadCall::ReadMode => (value, values.1),
                    TouchPadCall::ReadBright => (values.0, value),
                    _ => values,
                };
                Ok((next, readings))
            },
            Err(err) => Err(err),
        }
    }
}

/// The value below which a pad counts as touched: two thirds of what it reads when nobody
/// touches it.
pub open spec fn threshold(value: u16) -> u16 {
    (value * 2 / 3) as u16
}

/// The thresholds of both pads, from what they read when nobody touches them.
pub fn touch_thresholds(mode_value: u16, bright_value: u16) -> (thresholds: (u16, u16))
    requires
        mode_value * 2 <= u16::MAX,
        bright_value * 2 <= u16::MAX,
    ensures
        thresholds == (threshold(mode_value), threshold(bright_value)),
{
    (mode_value * 2 / 3, bright_value * 2 / 3)
}

/// What the touch pads last did, and what the lamp was last told.
#[derive(Debug, Clone, Copy, PartialEq, Eq, Structural)]
pub struct TouchState {
    pub is_touched_mode: bool,
    pub is_touched_bright: bool,
    pub current_lamp_mode: LampMode,
    pub current_warm_brightness: u8,
}

impl TouchState {
    /// Nothing is touched, and the lamp is as it starts.
    pub fn new() -> (state: TouchState)
        ensures
            state == (TouchState {
                is_touched_mode: false,
                is_touched_bright: false,
                current_lamp_mode: LampMode::Off,
                current_warm_brightness: DEFAULT_BRIGHTNESS,
            }),
    {
        TouchState {
            is_touched_mode: false,
            is_touched_bright: false,
            current_lamp_mode: LampMode::Off,
            current_warm_brightness: DEFAULT_BRIGHTNESS,
        }
    }
}

/// The brightness that a touch on the brightness pad switches to: a fifth more, no more
/// than the greatest, and dark after the greatest.
pub open spec fn next_brightness(level: u8) -> u8 {
    if level == u8::MAX {
        0
    } else if level > u8::MAX - BRIGHTNESS_STEP {
        u8::MAX
    } else {
        (level + BRIGHTNESS_STEP) as u8
    }
}

/// Whether the mode pad has just been touched.
pub open spec fn mode_pressed(state: TouchState, touched: bool) -> bool {
    touched && !state.is_touched_mode
}

/// The state after the mode pad was read.
pub open spec fn after_mode_pad(state: TouchState, touched: bool) -> TouchState {
    TouchState {
        is_touched_mode: touched,
        current_lamp_mode: if mode_pressed(state, touched) {
            state.current_lamp_mode.successor()
        } else {
            state.current_lamp_mode
        },
        ..state
    }
}

/// What is sent when the mode pad was read.
pub open spec fn mode_pad_commands(state: TouchState, touched: bool) -> Seq<Command> {
    if mode_pressed(state, touched) {
        seq![Command::Mode(state.current_lamp_mode.successor())]
    } else {
        seq![]
    }
}

/// Whether the brightness pad has just been touched.
pub open spec fn bright_pressed(state: TouchState, touched: bool) -> bool {
    touched && !state.is_touched_bright
}

/// The state after the brightness pad was read.
pub open spec fn after_bright_pad(state: TouchState, touched: bool) -> TouchState {
    if bright_pressed(state, touched) {
        TouchState {
            is_touched_bright: touched,
            current_lamp_mode: LampMode::Color,
            current_warm_brightness: next_brightness(state.current_warm_brightness),
            ..state
        }
    } else {
        TouchState { is_touched_bright: touched, ..state }
    }
}

/// What is sent when the brightness pad was read.
pub open spec fn bright_pad_commands(state: TouchState, touched: bool) -> Seq<Command> {
    if bright_pressed(state, touched) {
        seq![
            Command::Mode(LampMode::Color),
            Command::Warm(next_brightness(state.current_warm_brightness)),
        ]
    } else {
        seq![]
    }
}

/// The state after both pads were read. Without thresholds, or without values, nothing
/// is known of the pads.
pub open spec fn after_pads(
    thresholds: Option<(u16, u16)>,
    state: TouchState,
    values: Option<(u16, u16)>,
) -> TouchState {
    match (thresholds, values) {
        (Some(threshold), Some(value)) => after_bright_pad(
            after_mode_pad(state, value.0 < threshold.0),
            value.1 < threshold.1,
        ),
        _ => state,
    }
}

/// What is sent when both pads were read.
pub open spec fn pad_commands(
    thresholds: Option<(u16, u16)>,
    state: TouchState,
    values: Option<(u16, u16)>,
) -> Seq<Command> {
    match (thresholds, values) {
        (Some(threshold), Some(value)) => mode_pad_commands(state, value.0 < threshold.0)
            + bright_pad_commands(
            after_mode_pad(state, value.0 < threshold.0),
            value.1 < threshold.1,
        ),
        _ => seq![],
    }
}

/// The state after a command for the lamp passed through.
pub open spec fn noted(state: TouchState, command: Command) -> TouchState {
    match command {
        Command::Mode(mode) => TouchState { current_lamp_mode: mode, ..state },
        Command::Warm(level) => TouchState { current_warm_brightness: level, ..state },
        _ => state,
    }
}

/// The state after a row of commands passed through.
pub open spec fn noted_all(state: TouchState, commands: Seq<Command>) -> TouchState
    decreases commands.len(),
{
    if commands.len() == 0 {
        state
    } else {
        noted(noted_all(state, commands.drop_last()), commands.last())
    }
}

fn brighten(level: u8) -> (brighter: u8)
    ensures
        brighter == next_brightness(level),
{
    if level == u8::MAX {
        0
    } else if level > u8::MAX - BRIGHTNESS_STEP {
        u8::MAX
    } else {
        level + BRIGHTNESS_STEP
    }
}

/// One round of the touch pads. Takes what the pads read and the commands that came in
/// from elsewhere, and returns the commands to send on to the lamp: first what the pads
/// ask for, then what came in.
pub fn touch_sensor_tick(
    touch_thresholds: Option<(u16, u16)>,
    touch_state: &mut TouchState,
    touch_values: Option<(u16, u16)>,
    received: &[Command],
) -> (sent: Vec<Command>)
    ensures
        sent@ == pad_commands(touch_thresholds, *old(touch_state), touch_values) + received@,
        *final(touch_state) == noted_all(
            after_pads(touch_thresholds, *old(touch_state), touch_values),
            received@,
        ),
{
    let mut sent: Vec<Command> = Vec::new();
    if let Some((touch_threshold_mode, touch_threshold_bright)) = touch_thresholds {
        if let Some((touch_value_mode, touch_value_bright)) = touch_values {
            if touch_value_mode < touch_threshold_mode {
                if !touch_state.is_touched_mode {
                    touch_state.is_touched_mode = true;
                    let new_lamp_mode = touch_state.current_lamp_mode.next();
                    touch_state.current_lamp_mode = new_lamp_mode;
                    sent.push(Command::Mode(new_lamp_mode));
                }
            } else if touch_state.is_touched_mode {
                touch_state.is_touched_mode = false;
            }
            if touch_value_bright < touch_threshold_bright {
                if !touch_state.is_touched_bright {
                    touch_state.is_touched_bright = true;
                    let new_warm_brightness = brighten(touch_state.current_warm_brightness);
                    touch_state.current_lamp_mode = LampMode::Color;
                    touch_state.current_warm_brightness = new_warm_brightness;
                    sent.push(Command::Mode(LampMode::Color));
                    sent.push(Command::Warm(new_warm_brightness));
                }
            } else if touch_state.is_touched_bright {
                touch_state.is_touched_bright = false;
            }
        }
    }
    let ghost own = pad_commands(touch_thresholds, *old(touch_state), touch_values);
    let ghost start = *touch_state;
    assert(sent@ =~= own);
    assert(start == after_pads(touch_thresholds, *old(touch_state), touch_values));
    let mut i: usize = 0;
    assert(received@.take(0) =~= Seq::<Command>::empty());
    while i < received.len()
        invariant
            0 <= i <= received@.len(),
            sent@ =~= own + received@.take(i as int),
            *touch_state == noted_all(start, received@.take(i as int)),
        decreases received@.len() - i,
    {
        let ghost through = received@.take(i + 1);
        assert(through.drop_last() =~= received@.take(i as int));
        assert(through.last() == received@[i as int]);
        let command = received[i];
        match command {
            Command::Mode(new_mode) => {
                touch_state.current_lamp_mode = new_mode;
            },
            Command::Warm(new_brightness) => {
                touch_state.current_warm_brightness = new_brightness;
            },
            _ => {},
        }
        sent.push(command);
        i += 1;
    }
    assert(received@.take(i as int) =~= received@);
    sent
}

} // verus!
