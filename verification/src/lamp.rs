//! The state of the lamp, what commands make of it, and what the LEDs show.

use vstd::prelude::*;

use crate::color::black;
use crate::color::brightness;
use crate::color::hsv2rgb;
use crate::color::hsv_rgb;
use crate::color::rainbow_color;
use crate::color::warm_color;
use crate::color::Palette;
use crate::color::Rgb;
use crate::color::DEFAULT_BRIGHTNESS;
use crate::color::NUM_LEDS;
use crate::command::Command;
use crate::mode::LampMode;

verus! {

/// What the lamp is doing.
#[derive(Debug, Clone, Copy, PartialEq, Eq, Structural)]
pub struct LampState {
    pub mode: LampMode,
    pub color: Rgb,
    /// Where the color wheel stands, out of 65536 places.
    pub wheel_pos: u16,
    /// How far the wheel turns with every tick.
    pub wheel_speed: u16,
    pub progress: u8,
}

/// The color that a lamp starts with, and falls back to when it goes dark.
pub open spec fn default_color() -> Rgb {
    warm_color(DEFAULT_BRIGHTNESS as int)
}

/// What a command asks for.
pub open spec fn commanded(state: LampState, command: Command) -> LampState {
    match command {
        Command::Mode(mode) => LampState { mode, ..state },
        Command::Rgb(r, g, b) => LampState { color: Rgb { r, g, b }, ..state },
        Command::Hsv(hue, sat, val) => LampState { color: hsv_rgb(hue, sat, val), ..state },
        Command::Warm(level) => LampState { color: warm_color(level as int), ..state },
        Command::Progress(progress) => LampState { progress, ..state },
        Command::WheelSpeed(wheel_speed) => LampState { wheel_speed, ..state },
    }
}

/// How bright the color is that a command gives, if it gives one.
pub open spec fn given_brightness(command: Command) -> Option<u8> {
    match command {
        Command::Rgb(r, g, b) => Some(brightness(Rgb { r, g, b })),
        Command::Hsv(_, _, val) => Some(val),
        Command::Warm(level) => Some(level),
        _ => None,
    }
}

/// Whether the lamp is to show a color, and that color is black.
pub open spec fn is_dark(state: LampState) -> bool {
    state.mode == LampMode::Color && state.color == black()
}

/// The state after a command. A lamp that would show black is switched off, and takes
/// back the color it started with.
pub open spec fn updated(state: LampState, command: Command) -> LampState {
    let asked = commanded(state, command);
    if is_dark(asked) {
        LampState { mode: LampMode::Off, color: default_color(), ..asked }
    } else {
        asked
    }
}

/// The state after a row of commands, one after the other.
pub open spec fn updated_by_all(state: LampState, commands: Seq<Command>) -> LampState
    decreases commands.len(),
{
    if commands.len() == 0 {
        state
    } else {
        updated(updated_by_all(state, commands.drop_last()), commands.last())
    }
}

/// The state at the end of a tick in which these commands came in.
pub open spec fn advanced(state: LampState, commands: Seq<Command>) -> LampState {
    let after = updated_by_all(state, commands);
    LampState {
        wheel_pos: ((after.wheel_pos + after.wheel_speed) % 0x1_0000) as u16,
        ..after
    }
}

/// How many LEDs the wheel has turned by.
pub open spec fn wheel_offset(state: LampState) -> int {
    state.wheel_pos * NUM_LEDS as int / 65535
}

/// How many LEDs of the progress bar are done.
pub open spec fn bar_length(state: LampState) -> int {
    state.progress * NUM_LEDS as int / 255
}

/// The hue of one LED of the progress bar: green up to where the bar reaches, red behind.
pub open spec fn bar_hue(state: LampState, index: int) -> u8 {
    if index < bar_length(state) {
        85
    } else {
        0
    }
}

/// The saturation of one LED of the progress bar, along which a paler wave runs.
pub open spec fn wave_saturation(state: LampState, index: int) -> int {
    let wave = (NUM_LEDS - index + wheel_offset(state)) % NUM_LEDS as int;
    255 - 40 * wave / NUM_LEDS as int
}

/// The color that one LED shows.
pub open spec fn led_color(state: LampState, index: int) -> Rgb {
    match state.mode {
        LampMode::Off => black(),
        LampMode::Color => state.color,
        LampMode::Rainbow => rainbow_color(wheel_offset(state)),
        LampMode::Space => rainbow_color((index + wheel_offset(state)) % NUM_LEDS as int),
        LampMode::Progress => hsv_rgb(
            bar_hue(state, index),
            wave_saturation(state, index) as u8,
            255,
        ),
    }
}

/// Whether the LEDs have a color to show. In rainbow mode the last place of the wheel
/// lies behind the end of the rainbow.
pub open spec fn is_showable(state: LampState) -> bool {
    state.mode == LampMode::Rainbow ==> wheel_offset(state) < NUM_LEDS
}

impl LampState {
    /// A lamp that is off and will be warm when switched on.
    pub fn new(palette: &Palette) -> (state: LampState)
        ensures
            state.mode == LampMode::Off,
            state.color == default_color(),
            state.wheel_pos == 0,
            state.wheel_speed == 300,
            state.progress == 0,
    {
        LampState {
            mode: LampMode::Off,
            color: palette.warm(DEFAULT_BRIGHTNESS),
            wheel_pos: 0,
            wheel_speed: 300,
            progress: 0,
        }
    }
}

/// Carries out a command.
pub fn update_lamp_state(lamp_state: &mut LampState, command: Command, palette: &Palette)
    ensures
        *final(lamp_state) == updated(*old(lamp_state), command),
{
    match command {
        Command::Mode(lamp_mode) => {
            lamp_state.mode = lamp_mode;
        },
        Command::Hsv(hue, sat, val) => {
            lamp_state.color = hsv2rgb(hue, sat, val);
        },
        Command::Rgb(red, green, blue) => {
            lamp_state.color = Rgb { r: red, g: green, b: blue };
        },
        Command::Warm(warm_brightness) => {
            lamp_state.color = palette.warm(warm_brightness);
        },
        Command::Progress(progress) => {
            lamp_state.progress = progress;
        },
        Command::WheelSpeed(wheel_speed) => {
            lamp_state.wheel_speed = wheel_speed;
        },
    }
    if lamp_state.mode == LampMode::Color && lamp_state.color == (Rgb { r: 0, g: 0, b: 0 }) {
        lamp_state.mode = LampMode::Off;
        lamp_state.color = palette.warm(DEFAULT_BRIGHTNESS);
    }
}

/// Whether `lamp_frame` has a color for every LED.
pub fn can_show(lamp_state: &LampState) -> (showable: bool)
    ensures
        showable == is_showable(*lamp_state),
{
    lamp_state.mode != LampMode::Rainbow || (lamp_state.wheel_pos as usize) * NUM_LEDS / 65535
        < NUM_LEDS
}

/// What the LEDs show, from one end of the tube to the other. There is nothing to show at the
/// last place of the wheel in rainbow mode: `can_show` tells.
pub fn lamp_frame(lamp_state: &LampState, palette: &Palette) -> (frame: [Rgb; NUM_LEDS])
    requires
        is_showable(*lamp_state),
    ensures
        frame@ == Seq::new(NUM_LEDS as nat, |i: int| led_color(*lamp_state, i)),
{
    let mut frame: [Rgb; NUM_LEDS] = [Rgb { r: 0, g: 0, b: 0 };NUM_LEDS];
    let offset: usize = (lamp_state.wheel_pos as usize) * NUM_LEDS / 65535;
    let done: usize = (lamp_state.progress as usize) * NUM_LEDS / 255;
    let mut idx: usize = 0;
    while idx < NUM_LEDS
        invariant
            0 <= idx <= NUM_LEDS,
            is_showable(*lamp_state),
            offset == wheel_offset(*lamp_state),
            done == bar_length(*lamp_state),
            0 <= offset <= NUM_LEDS,
            forall|j: int| 0 <= j < idx ==> #[trigger] frame@[j] == led_color(*lamp_state, j),
        decreases NUM_LEDS - idx,
    {
        frame[idx] = match lamp_state.mode {
            LampMode::Off => Rgb { r: 0, g: 0, b: 0 },
            LampMode::Color => lamp_state.color,
            LampMode::Rainbow => palette.rainbow(offset),
            LampMode::Space => palette.rainbow((idx + offset) % NUM_LEDS),
            LampMode::Progress => {
                let hue: u8 = if idx < done {
                    85
                } else {
                    0
                };
                let wave_idx: usize = (NUM_LEDS - idx + offset) % NUM_LEDS;
                let sat: u8 = 255 - (40 * wave_idx / NUM_LEDS) as u8;
                hsv2rgb(hue, sat, 255)
            },
        };
        idx += 1;
    }
    assert(frame@ =~= Seq::new(NUM_LEDS as nat, |i: int| led_color(*lamp_state, i)));
    frame
}

/// Ends a tick: carries out the commands that came in, in their order, and turns the
/// wheel.
pub fn lamp_advance(lamp_state: &mut LampState, commands: &[Command], palette: &Palette)
    ensures
        *final(lamp_state) == advanced(*old(lamp_state), commands@),
{
    let ghost start = *lamp_state;
    let mut i: usize = 0;
    assert(commands@.take(0) =~= Seq::<Command>::empty());
    while i < commands.len()
        invariant
            0 <= i <= commands@.len(),
            *lamp_state == updated_by_all(start, commands@.take(i as int)),
        decreases commands@.len() - i,
    {
        let ghost through = commands@.take(i + 1);
        assert(through.drop_last() =~= commands@.take(i as int));
        assert(through.last() == commands@[i as int]);
        update_lamp_state(lamp_state, commands[i], palette);
        i += 1;
    }
    assert(commands@.take(i as int) =~= commands@);
    lamp_state.wheel_pos = lamp_state.wheel_pos.wrapping_add(lamp_state.wheel_speed);
}

} // verus!
