//! What commands make of the lamp, and what it shows.

use smart_leds::hsv::hsv2rgb;
use smart_leds::hsv::Hsv;
use tube_lamp::color::Palette;
use tube_lamp::color::Rgb;
use tube_lamp::color::NUM_LEDS;
use tube_lamp::command::Command;
use tube_lamp::lamp::can_show;
use tube_lamp::lamp::lamp_advance;
use tube_lamp::lamp::lamp_frame;
use tube_lamp::lamp::update_lamp_state;
use tube_lamp::lamp::LampState;
use tube_lamp::mode::LampMode;

const BLACK: Rgb = Rgb { r: 0, g: 0, b: 0 };
const DEFAULT: Rgb = Rgb { r: 51, g: 16, b: 5 };

fn converted(hue: u8, sat: u8, val: u8) -> Rgb {
    let color = hsv2rgb(Hsv { hue, sat, val });
    Rgb { r: color.r, g: color.g, b: color.b }
}

fn lamp(mode: LampMode, color: Rgb) -> LampState {
    LampState { mode, color, wheel_pos: 0, wheel_speed: 300, progress: 0 }
}

fn after(state: LampState, commands: &[Command]) -> LampState {
    let palette = Palette::new();
    let mut state = state;
    for command in commands {
        update_lamp_state(&mut state, *command, &palette);
    }
    state
}

#[test]
fn palette_holds_the_converted_colors() {
    let palette = Palette::new();
    assert_eq!(palette.rainbow(0), Rgb { r: 255, g: 0, b: 0 });
    for i in 0..NUM_LEDS {
        assert_eq!(palette.rainbow(i), converted((i * 255 / NUM_LEDS) as u8, 255, 255));
    }
    assert_eq!(palette.warm(0), BLACK);
    assert_eq!(palette.warm(51), DEFAULT);
    for level in 0..=255u8 {
        assert_eq!(palette.warm(level), converted(10, 230, level));
    }
}

#[test]
fn strongest_component_is_the_value() {
    for hue in 0..=255u8 {
        for sat in [0u8, 1, 127, 230, 255] {
            for val in [0u8, 1, 51, 254, 255] {
                let color = after(lamp(LampMode::Off, BLACK), &[Command::Hsv(hue, sat, val)]).color;
                assert_eq!(color, converted(hue, sat, val));
                assert_eq!(color.r.max(color.g).max(color.b), val);
            }
        }
    }
}

#[test]
fn hues_go_round_in_six_parts() {
    let share = |val: u32, weakening: u32| (val * (255 - weakening) / 255) as u8;
    for hue in 0..=255u8 {
        for sat in 0..=255u8 {
            for val in [0u8, 1, 42, 51, 128, 254, 255] {
                let (h, s, v) = (hue as u32, sat as u32, val as u32);
                let within = h * 2 % 85 * 3;
                let low = share(v, s);
                let falling = share(v, s * within / 255);
                let rising = share(v, s * (255 - within) / 255);
                let (r, g, b) = match hue {
                    0..=42 | 255 => (val, rising, low),
                    43..=84 => (falling, val, low),
                    85..=127 => (low, val, rising),
                    128..=169 => (low, falling, val),
                    170..=212 => (rising, low, val),
                    213..=254 => (val, low, falling),
                };
                assert_eq!(converted(hue, sat, val), Rgb { r, g, b });
            }
        }
    }
}

#[test]
fn warm_light_keeps_its_proportions() {
    let palette = Palette::new();
    for level in 0..=255u32 {
        let color = Rgb { r: level as u8, g: (level * 80 / 255) as u8, b: (level * 25 / 255) as u8 };
        assert_eq!(palette.warm(level as u8), color);
    }
}

#[test]
fn rainbow_colors_are_pure() {
    let palette = Palette::new();
    for i in 0..NUM_LEDS {
        let Rgb { r, g, b } = palette.rainbow(i);
        assert_eq!((r.max(g).max(b), r.min(g).min(b)), (255, 0));
    }
}

#[test]
fn own_color_stays_lit_through_whole_messages() {
    let palette = Palette::new();
    for mode in [LampMode::Off, LampMode::Color, LampMode::Rainbow, LampMode::Space, LampMode::Progress] {
        let mut state = lamp(mode, DEFAULT);
        lamp_advance(
            &mut state,
            &[
                Command::Mode(LampMode::Color),
                Command::Rgb(0, 0, 0),
                Command::Mode(LampMode::Rainbow),
                Command::Mode(LampMode::Color),
                Command::Warm(0),
                Command::Progress(3),
            ],
            &palette,
        );
        assert_eq!((state.mode, state.color), (LampMode::Off, DEFAULT));
    }
}

#[test]
fn new_lamp_is_off_and_warm() {
    let palette = Palette::new();
    assert_eq!(LampState::new(&palette), lamp(LampMode::Off, DEFAULT));
}

#[test]
fn commands_set_what_they_name() {
    let start = lamp(LampMode::Color, DEFAULT);
    assert_eq!(after(start, &[Command::Mode(LampMode::Space)]), LampState { mode: LampMode::Space, ..start });
    assert_eq!(after(start, &[Command::Rgb(1, 2, 3)]), LampState { color: Rgb { r: 1, g: 2, b: 3 }, ..start });
    assert_eq!(after(start, &[Command::Hsv(89, 230, 42)]), LampState { color: Rgb { r: 4, g: 42, b: 7 }, ..start });
    assert_eq!(after(start, &[Command::Warm(255)]), LampState { color: Rgb { r: 255, g: 80, b: 25 }, ..start });
    assert_eq!(after(start, &[Command::Progress(7)]), LampState { progress: 7, ..start });
    assert_eq!(after(start, &[Command::WheelSpeed(9)]), LampState { wheel_speed: 9, ..start });
}

#[test]
fn black_switches_the_lamp_off() {
    for dark in [Command::Rgb(0, 0, 0), Command::Hsv(7, 8, 0), Command::Warm(0)] {
        let off = after(lamp(LampMode::Color, Rgb { r: 1, g: 2, b: 3 }), &[dark]);
        assert_eq!(off, lamp(LampMode::Off, DEFAULT));
        // and it lights up again when switched on
        assert_eq!(after(off, &[Command::Mode(LampMode::Color)]), lamp(LampMode::Color, DEFAULT));
    }
    // black is kept while another mode is shown
    let kept = after(lamp(LampMode::Space, DEFAULT), &[Command::Rgb(0, 0, 0)]);
    assert_eq!(kept, lamp(LampMode::Space, BLACK));
    assert_eq!(after(kept, &[Command::Mode(LampMode::Color)]), lamp(LampMode::Off, DEFAULT));
}

#[test]
fn color_messages_show_their_color() {
    for mode in [LampMode::Off, LampMode::Color, LampMode::Rainbow, LampMode::Space, LampMode::Progress] {
        let lit = after(lamp(mode, DEFAULT), &[Command::Mode(LampMode::Color), Command::Rgb(1, 2, 3)]);
        assert_eq!(lit, lamp(LampMode::Color, Rgb { r: 1, g: 2, b: 3 }));
    }
    // a lamp that has black for its own color goes off on the way
    let off = after(lamp(LampMode::Space, BLACK), &[Command::Mode(LampMode::Color), Command::Rgb(1, 2, 3)]);
    assert_eq!(off, lamp(LampMode::Off, Rgb { r: 1, g: 2, b: 3 }));
}

#[test]
fn off_and_color_show_one_color() {
    let palette = Palette::new();
    assert_eq!(lamp_frame(&lamp(LampMode::Off, DEFAULT), &palette), [BLACK; NUM_LEDS]);
    assert_eq!(lamp_frame(&lamp(LampMode::Color, DEFAULT), &palette), [DEFAULT; NUM_LEDS]);
}

#[test]
fn rainbow_shows_one_place_at_a_time() {
    let palette = Palette::new();
    for (pos, place) in [(0u16, 0usize), (762, 0), (763, 1), (32768, 43), (65534, 85)] {
        let state = LampState { wheel_pos: pos, ..lamp(LampMode::Rainbow, DEFAULT) };
        assert!(can_show(&state));
        assert_eq!(lamp_frame(&state, &palette), [palette.rainbow(place); NUM_LEDS]);
    }
}

#[test]
fn last_place_of_the_wheel_has_no_rainbow_color() {
    let end = LampState { wheel_pos: 65535, ..lamp(LampMode::Rainbow, DEFAULT) };
    assert!(!can_show(&end));
    for mode in [LampMode::Off, LampMode::Color, LampMode::Space, LampMode::Progress] {
        assert!(can_show(&LampState { mode, ..end }));
    }
}

#[test]
fn space_shows_a_turned_rainbow() {
    let palette = Palette::new();
    for (pos, offset) in [(0u16, 0usize), (763, 1), (32768, 43), (65535, 86)] {
        let state = LampState { wheel_pos: pos, ..lamp(LampMode::Space, DEFAULT) };
        let frame = lamp_frame(&state, &palette);
        for i in 0..NUM_LEDS {
            assert_eq!(frame[i], palette.rainbow((i + offset) % NUM_LEDS));
        }
    }
}

#[test]
fn progress_shows_a_bar() {
    let palette = Palette::new();
    for (progress, length) in [(0u8, 0usize), (2, 0), (3, 1), (128, 43), (254, 85), (255, 86)] {
        for (pos, offset) in [(0u16, 0usize), (32768, 43), (65535, 86)] {
            let state = LampState { wheel_pos: pos, progress, ..lamp(LampMode::Progress, DEFAULT) };
            let frame = lamp_frame(&state, &palette);
            for i in 0..NUM_LEDS {
                let hue = if i < length { 85 } else { 0 };
                let wave = (NUM_LEDS - i + offset) % NUM_LEDS;
                let pale = (40 * wave / NUM_LEDS) as u8;
                let color = if i < length {
                    Rgb { r: pale, g: 255, b: pale }
                } else {
                    Rgb { r: 255, g: pale, b: pale }
                };
                assert_eq!(frame[i], color);
                assert_eq!(frame[i], converted(hue, 255 - (40 * wave / NUM_LEDS) as u8, 255));
            }
        }
    }
    let start = lamp_frame(&lamp(LampMode::Progress, DEFAULT), &palette);
    assert_eq!(start[0], Rgb { r: 255, g: 0, b: 0 });
    assert_eq!(start[1], Rgb { r: 255, g: 39, b: 39 });
}

#[test]
fn ticks_carry_out_commands_and_turn_the_wheel() {
    let palette = Palette::new();
    let mut state = LampState::new(&palette);
    lamp_advance(&mut state, &[], &palette);
    assert_eq!(state, LampState { wheel_pos: 300, ..lamp(LampMode::Off, DEFAULT) });
    lamp_advance(
        &mut state,
        &[Command::Mode(LampMode::Color), Command::Rgb(1, 2, 3), Command::WheelSpeed(65000)],
        &palette,
    );
    assert_eq!(
        state,
        LampState {
            mode: LampMode::Color,
            color: Rgb { r: 1, g: 2, b: 3 },
            wheel_pos: 65300,
            wheel_speed: 65000,
            progress: 0,
        }
    );
    lamp_advance(&mut state, &[], &palette);
    assert_eq!(state.wheel_pos, 64764);
}

#[test]
fn commands_come_in_their_order() {
    let palette = Palette::new();
    let mut state = lamp(LampMode::Color, DEFAULT);
    lamp_advance(&mut state, &[Command::Warm(0), Command::Rgb(1, 2, 3)], &palette);
    assert_eq!((state.mode, state.color), (LampMode::Off, Rgb { r: 1, g: 2, b: 3 }));
    let mut state = lamp(LampMode::Color, DEFAULT);
    lamp_advance(&mut state, &[Command::Rgb(1, 2, 3), Command::Warm(0)], &palette);
    assert_eq!((state.mode, state.color), (LampMode::Off, DEFAULT));
}

#[test]
fn wheel_at_its_first_speed_can_always_be_shown() {
    let palette = Palette::new();
    let mut state = LampState { mode: LampMode::Rainbow, ..LampState::new(&palette) };
    for _ in 0..20000 {
        assert!(can_show(&state));
        lamp_advance(&mut state, &[], &palette);
    }
}
