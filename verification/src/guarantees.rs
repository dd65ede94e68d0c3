//! What every operation does, said of what goes in and of what comes out.

use vstd::prelude::*;
use vstd::utf8::decode_utf8;
use vstd::utf8::is_ascii_chars;
use vstd::utf8::valid_utf8;

use crate::color::hsv_rgb;
use crate::color::rainbow_color;
use crate::color::warm_color;
use crate::color::warm_light_is_reddish;
use crate::color::Rgb;
use crate::command::Command;
use crate::lamp::advanced;
use crate::lamp::default_color;
use crate::lamp::is_showable;
use crate::lamp::led_color;
use crate::lamp::updated;
use crate::lamp::updated_by_all;
use crate::lamp::wheel_offset;
use crate::lamp::LampState;
use crate::laws::bar_is_green_and_red;
use crate::laws::led_of_place;
use crate::laws::mode_name;
use crate::laws::topics_are_told_apart;
use crate::laws::wave_is_slight;
use crate::message::event_commands;
use crate::message::is_manageable;
use crate::message::MessageError;
use crate::message::MqttEvent;
use crate::mode::ascii_lowercase_char;
use crate::mode::lowercase;
use crate::mode::mode_named;
use crate::mode::unicode_lowercase;
use crate::mode::LampMode;
use crate::session::is_action_of;
use crate::session::stage_after;
use crate::session::Action;
use crate::session::Stage;
use crate::text::byte_triple;
use crate::text::hex_triple;
use crate::text::u16_value;
use crate::text::u8_value;
use crate::text_laws::ascii_is_utf8;
use crate::text_laws::digit_spelled;
use crate::text_laws::hashes;
use crate::text_laws::hashes_change_nothing;
use crate::text_laws::hex_color_is_three_pairs;
use crate::text_laws::is_ascii_text;
use crate::text_laws::pair_of_either_case_is_read;
use crate::touch::after_pads;
use crate::touch::next_brightness;
use crate::touch::noted_all;
use crate::touch::pad_commands;
use crate::touch::threshold;
use crate::touch::TouchPadCall;
use crate::touch::TouchState;

verus! {

/// The mode pad goes from off to color, rainbow, space and off again. From the progress bar it
/// goes off.
pub proof fn modes_come_in_order()
    ensures
        LampMode::Off.successor() == LampMode::Color,
        LampMode::Color.successor() == LampMode::Rainbow,
        LampMode::Rainbow.successor() == LampMode::Space,
        LampMode::Space.successor() == LampMode::Off,
        LampMode::Progress.successor() == LampMode::Off,
{
}

/// Whether a text is a lower-case name, in letters of any case.
pub open spec fn is_written_as(text: Seq<char>, name: Seq<char>) -> bool {
    &&& text.len() == name.len()
    &&& forall|i: int|
        0 <= i < text.len() ==> #[trigger] text[i] == name[i] || ('A' <= text[i] <= 'Z'
            && text[i] as u32 + 32 == name[i] as u32)
}

/// A lower-case text names a mode if and only if it is the mode's name.
pub proof fn only_names_name_modes(name: Seq<char>, mode: LampMode)
    ensures
        mode_named(name) == Ok::<LampMode, ()>(mode) <==> name == mode_name(mode),
{
    lemma_names_differ();
}

proof fn lemma_names_differ()
    ensures
        "off"@.len() == 3,
        "color"@.len() == 5,
        "rainbow"@.len() == 7,
        "space"@.len() == 5,
        "progress"@.len() == 8,
        "color"@[0] != "space"@[0],
{
    reveal_strlit("off");
    reveal_strlit("color");
    reveal_strlit("rainbow");
    reveal_strlit("space");
    reveal_strlit("progress");
    assert("color"@[0] == 'c');
    assert("space"@[0] == 's');
}

proof fn lemma_names_are_lower_case(mode: LampMode)
    ensures
        forall|i: int|
            0 <= i < mode_name(mode).len() ==> 'a' <= #[trigger] mode_name(mode)[i] <= 'z',
{
    reveal_strlit("off");
    reveal_strlit("color");
    reveal_strlit("rainbow");
    reveal_strlit("space");
    reveal_strlit("progress");
}

/// A text in ASCII names a mode if and only if it is the mode's name in letters of any case.
pub proof fn names_in_any_case_name_modes(text: Seq<char>, mode: LampMode)
    requires
        is_ascii_chars(text),
    ensures
        mode_named(lowercase(text)) == Ok::<LampMode, ()>(mode) <==> is_written_as(
            text,
            mode_name(mode),
        ),
{
    let name = mode_name(mode);
    let lower = text.map_values(|c: char| ascii_lowercase_char(c));
    only_names_name_modes(lower, mode);
    lemma_names_are_lower_case(mode);
    if is_written_as(text, name) {
        assert forall|i: int| 0 <= i < text.len() implies lower[i] == name[i] by {
            assert(text[i] == name[i] || ('A' <= text[i] <= 'Z' && text[i] as u32 + 32
                == name[i] as u32));
            assert('a' <= name[i] <= 'z');
        }
        assert(lower =~= name);
    }
    if lower == name {
        assert forall|i: int| 0 <= i < text.len() implies #[trigger] text[i] == name[i] || ('A'
            <= text[i] <= 'Z' && text[i] as u32 + 32 == name[i] as u32) by {
            assert(lower[i] == name[i]);
        }
    }
}

/// Any other text is put in lower case as Unicode has it.
pub proof fn other_texts_go_by_unicode(text: Seq<char>)
    requires
        !is_ascii_chars(text),
    ensures
        lowercase(text) == unicode_lowercase(text),
{
}

/// A message in UTF-8 is read by the rule of its topic: a mode, three numbers, a color in
/// hexadecimal, or one number. A color comes behind the mode that shows it. What the rule
/// cannot read is refused in the topic's own way.
pub proof fn messages_are_read_by_their_topic(topic: &str, data: &[u8])
    requires
        valid_utf8(data@),
    ensures
        ({
            let commands = event_commands(MqttEvent::Received { topic: Some(topic), data });
            let shown = Command::Mode(LampMode::Color);
            &&& topic@ == "lamps/tube/mode"@ ==> match mode_named(lowercase(decode_utf8(data@))) {
                Ok(mode) => commands == Ok::<Seq<Command>, MessageError>(seq![Command::Mode(mode)]),
                Err(_) => commands == Err::<Seq<Command>, MessageError>(MessageError::Mode),
            }
            &&& topic@ == "lamps/tube/rgb"@ ==> match byte_triple(data@) {
                Some((red, green, blue)) => commands == Ok::<Seq<Command>, MessageError>(
                    seq![shown, Command::Rgb(red, green, blue)],
                ),
                None => commands == Err::<Seq<Command>, MessageError>(MessageError::Rgb),
            }
            &&& topic@ == "lamps/tube/hsv"@ ==> match byte_triple(data@) {
                Some((hue, sat, val)) => commands == Ok::<Seq<Command>, MessageError>(
                    seq![shown, Command::Hsv(hue, sat, val)],
                ),
                None => commands == Err::<Seq<Command>, MessageError>(MessageError::Hsv),
            }
            &&& topic@ == "lamps/tube/hex"@ ==> match hex_triple(data@) {
                Some((red, green, blue)) => commands == Ok::<Seq<Command>, MessageError>(
                    seq![shown, Command::Rgb(red, green, blue)],
                ),
                None => commands == Err::<Seq<Command>, MessageError>(MessageError::Hex),
            }
            &&& topic@ == "lamps/tube/warm"@ ==> match u8_value(data@, 10) {
                Some(level) => commands == Ok::<Seq<Command>, MessageError>(
                    seq![shown, Command::Warm(level)],
                ),
                None => commands == Err::<Seq<Command>, MessageError>(MessageError::Warm),
            }
            &&& topic@ == "lamps/tube/progress"@ ==> match u8_value(data@, 10) {
                Some(progress) => commands == Ok::<Seq<Command>, MessageError>(
                    seq![Command::Progress(progress)],
                ),
                None => commands == Err::<Seq<Command>, MessageError>(MessageError::Progress),
            }
            &&& topic@ == "lamps/tube/wheel_speed"@ ==> match u16_value(data@) {
                Some(speed) => commands == Ok::<Seq<Command>, MessageError>(
                    seq![Command::WheelSpeed(speed)],
                ),
                None => commands == Err::<Seq<Command>, MessageError>(MessageError::WheelSpeed),
            }
        }),
{
    topics_are_told_apart(data@);
}

/// Every other event is told apart: a message that is not UTF-8, one without a topic, one
/// with a topic that the lamp does not listen to, and what is no message.
pub proof fn other_events_are_told_apart(topic: Option<&str>, data: &[u8])
    ensures
        ({
            let commands = event_commands(MqttEvent::Received { topic, data });
            &&& commands == Err::<Seq<Command>, MessageError>(MessageError::NotUtf8)
                <==> !valid_utf8(data@)
            &&& commands == Err::<Seq<Command>, MessageError>(MessageError::NoTopic)
                <==> valid_utf8(data@) && topic is None
            &&& commands == Err::<Seq<Command>, MessageError>(MessageError::UnexpectedTopic)
                <==> valid_utf8(data@) && (topic matches Some(topic) && topic@
                != "lamps/tube/mode"@ && topic@ != "lamps/tube/rgb"@ && topic@
                != "lamps/tube/hsv"@ && topic@ != "lamps/tube/hex"@ && topic@
                != "lamps/tube/warm"@ && topic@ != "lamps/tube/progress"@ && topic@
                != "lamps/tube/wheel_speed"@)
        }),
        event_commands(MqttEvent::Other) == Ok::<Seq<Command>, MessageError>(Seq::empty()),
{
}

/// A color of six hexadecimal digits, in letters of either case and behind any number of `#`,
/// is shown.
pub proof fn hex_digits_of_either_case_are_read(
    topic: &str,
    data: &[u8],
    count: nat,
    digits: Seq<u8>,
    red: u8,
    green: u8,
    blue: u8,
)
    requires
        topic@ == "lamps/tube/hex"@,
        data@ == hashes(count) + digits,
        digits.len() == 6,
        digit_spelled(digits[0]) == red as int / 16,
        digit_spelled(digits[1]) == red as int % 16,
        digit_spelled(digits[2]) == green as int / 16,
        digit_spelled(digits[3]) == green as int % 16,
        digit_spelled(digits[4]) == blue as int / 16,
        digit_spelled(digits[5]) == blue as int % 16,
    ensures
        is_manageable(MqttEvent::Received { topic: Some(topic), data }),
        event_commands(MqttEvent::Received { topic: Some(topic), data }) == Ok::<
            Seq<Command>,
            MessageError,
        >(seq![Command::Mode(LampMode::Color), Command::Rgb(red, green, blue)]),
{
    assert(is_ascii_text(data@)) by {
        assert forall|i: int| 0 <= i < data@.len() implies #[trigger] data@[i] < 0x80 by {
            if i >= count {
                let k = i - count;
                assert(data@[i] == digits[k]);
                assert(k == 0 || k == 1 || k == 2 || k == 3 || k == 4 || k == 5);
            }
        }
    }
    ascii_is_utf8(data@);
    pair_of_either_case_is_read(digits[0], digits[1]);
    pair_of_either_case_is_read(digits[2], digits[3]);
    pair_of_either_case_is_read(digits[4], digits[5]);
    hex_color_is_three_pairs(count, digits);
    hashes_change_nothing(count, digits);
    messages_are_read_by_their_topic(topic, data);
}

/// The only messages that cannot be handled are colors in hexadecimal that would be cut
/// within a character: six bytes behind the `#`, where the second pair starts within one, or
/// where the third does and the first pair is a number.
pub proof fn only_cut_characters_cannot_be_handled(
    topic: Option<&str>,
    data: &[u8],
    count: nat,
    hex: Seq<u8>,
)
    requires
        data@ == hashes(count) + hex,
        hex.len() == 0 || hex[0] != '#' as u8,
    ensures
        !is_manageable(MqttEvent::Received { topic, data }) <==> {
            &&& valid_utf8(data@)
            &&& topic matches Some(topic) && topic@ == "lamps/tube/hex"@
            &&& hex.len() == 6
            &&& (0x80 <= hex[2] < 0xc0) || (0x80 <= hex[4] < 0xc0 && u8_value(
                seq![hex[0], hex[1]],
                16,
            ) is Some)
        },
        is_manageable(MqttEvent::Other),
{
    hashes_change_nothing(count, hex);
    if hex.len() == 6 {
        assert(hex.subrange(0, 2) =~= seq![hex[0], hex[1]]);
    }
}

/// Each pad works by itself. A pad is touched when it reads less than its threshold, and acts
/// when it was not touched before: the mode pad sends the next mode, the brightness pad sends
/// the color mode and the next brightness. What was sent is what is remembered, the brightness
/// pad having the last word on the mode.
pub proof fn each_pad_works_by_itself(
    threshold: (u16, u16),
    state: TouchState,
    value: (u16, u16),
)
    ensures
        ({
            let sent = pad_commands(Some(threshold), state, Some(value));
            let after = after_pads(Some(threshold), state, Some(value));
            let mode_acts = value.0 < threshold.0 && !state.is_touched_mode;
            let bright_acts = value.1 < threshold.1 && !state.is_touched_bright;
            let next_mode = state.current_lamp_mode.successor();
            let next_level = next_brightness(state.current_warm_brightness);
            &&& after.is_touched_mode == (value.0 < threshold.0)
            &&& after.is_touched_bright == (value.1 < threshold.1)
            &&& sent.len() == (if mode_acts {
                1int
            } else {
                0
            }) + (if bright_acts {
                2int
            } else {
                0
            })
            &&& mode_acts ==> sent[0] == Command::Mode(next_mode)
            &&& bright_acts ==> sent[sent.len() - 2] == Command::Mode(LampMode::Color)
                && sent[sent.len() - 1] == Command::Warm(next_level)
            &&& after.current_warm_brightness == if bright_acts {
                next_level
            } else {
                state.current_warm_brightness
            }
            &&& after.current_lamp_mode == if bright_acts {
                LampMode::Color
            } else if mode_acts {
                next_mode
            } else {
                state.current_lamp_mode
            }
        }),
{
}

/// Pads without thresholds, or that could not be read, do nothing.
pub proof fn unknown_pads_do_nothing(
    thresholds: Option<(u16, u16)>,
    state: TouchState,
    values: Option<(u16, u16)>,
)
    requires
        thresholds is None || values is None,
    ensures
        pad_commands(thresholds, state, values) == Seq::<Command>::empty(),
        after_pads(thresholds, state, values) == state,
{
}

/// A touch makes the lamp brighter by a fifth of the greatest brightness, but never brighter
/// than that; and from there, dark.
pub proof fn brightness_grows_by_a_fifth(level: u8)
    ensures
        level == 255 ==> next_brightness(level) == 0,
        level < 255 && level + 51 <= 255 ==> next_brightness(level) == level + 51,
        level < 255 && level + 51 > 255 ==> next_brightness(level) == 255,
{
}

/// The threshold of a pad is two thirds of what it reads untouched, rounded down.
pub proof fn threshold_is_two_thirds(value: u16)
    ensures
        3 * threshold(value) <= 2 * value < 3 * (threshold(value) + 1),
{
}

/// Of the commands that come in from elsewhere the touch side remembers the last mode and the
/// last brightness. Nothing else of it changes.
pub proof fn last_command_is_remembered(
    state: TouchState,
    commands: Seq<Command>,
    command: Command,
)
    ensures
        noted_all(state, Seq::empty()) == state,
        ({
            let before = noted_all(state, commands);
            let after = noted_all(state, commands.push(command));
            &&& after.is_touched_mode == before.is_touched_mode
            &&& after.is_touched_bright == before.is_touched_bright
            &&& after.current_lamp_mode == match command {
                Command::Mode(mode) => mode,
                _ => before.current_lamp_mode,
            }
            &&& after.current_warm_brightness == match command {
                Command::Warm(level) => level,
                _ => before.current_warm_brightness,
            }
        }),
{
    assert(commands.push(command).drop_last() =~= commands);
    assert(commands.push(command).last() == command);
}

/// The pads are set up in order and then read, the mode pad first.
pub proof fn calls_come_in_order(value: u16, values: (u16, u16))
    ensures
        TouchPadCall::Init.successor() == Some(TouchPadCall::SetVoltage),
        TouchPadCall::SetVoltage.successor() == Some(TouchPadCall::ConfigMode),
        TouchPadCall::ConfigMode.successor() == Some(TouchPadCall::ConfigBright),
        TouchPadCall::ConfigBright.successor() == Some(TouchPadCall::StartFilter),
        TouchPadCall::StartFilter.successor() == Some(TouchPadCall::ReadMode),
        TouchPadCall::ReadMode.successor() == Some(TouchPadCall::ReadBright),
        TouchPadCall::ReadBright.successor() is None,
        TouchPadCall::ReadMode.readings(value, values) == (value, values.1),
        TouchPadCall::ReadBright.readings(value, values) == (values.0, value),
{
}

/// Only the calls that read a pad change what was read.
pub proof fn other_calls_read_nothing(call: TouchPadCall, value: u16, values: (u16, u16))
    requires
        call != TouchPadCall::ReadMode,
        call != TouchPadCall::ReadBright,
    ensures
        call.readings(value, values) == values,
{
}

/// Every call that fails says so in its own words.
pub proof fn failures_are_told_apart()
    ensures
        TouchPadCall::Init.failure() == "Touch pad init failed."@,
        TouchPadCall::SetVoltage.failure() == "Touch pad set voltage failed."@,
        TouchPadCall::ConfigMode.failure() == "Touch pad 0 config failed."@,
        TouchPadCall::ConfigBright.failure() == "Touch pad 1 config failed."@,
        TouchPadCall::StartFilter.failure() == "Touch pad filter start failed."@,
        TouchPadCall::ReadMode.failure() == "Touch pad 0 filtered read failed."@,
        TouchPadCall::ReadBright.failure() == "Touch pad 1 filtered read failed."@,
{
}

/// A lamp that is switched to a mode is in that mode and keeps everything else. Only a lamp
/// whose color is black does not go to color mode: it goes off, and is warm when it is next
/// switched on.
pub proof fn mode_command_switches(state: LampState, mode: LampMode)
    ensures
        ({
            let after = updated(state, Command::Mode(mode));
            let dark = mode == LampMode::Color && state.color == (Rgb { r: 0, g: 0, b: 0 });
            &&& after.mode == if dark {
                LampMode::Off
            } else {
                mode
            }
            &&& after.color == if dark {
                Rgb { r: 51, g: 16, b: 5 }
            } else {
                state.color
            }
            &&& after.wheel_pos == state.wheel_pos
            &&& after.wheel_speed == state.wheel_speed
            &&& after.progress == state.progress
        }),
{
    warm_light_is_reddish(51);
}

/// What is to be seen of a lamp that was given a color: the color, unless it is black and the
/// lamp shows its color, which then goes off, and is warm when it is next switched on. All
/// else is kept.
pub open spec fn has_taken(before: LampState, after: LampState, color: Rgb) -> bool {
    let dark = before.mode == LampMode::Color && color.r == 0 && color.g == 0 && color.b == 0;
    &&& after.mode == if dark {
        LampMode::Off
    } else {
        before.mode
    }
    &&& after.color == if dark {
        Rgb { r: 51, g: 16, b: 5 }
    } else {
        color
    }
    &&& after.wheel_pos == before.wheel_pos
    &&& after.wheel_speed == before.wheel_speed
    &&& after.progress == before.progress
}

/// A lamp takes the color that it is given, by red, green and blue or by hue, saturation and
/// value; and a warm light of a brightness has that much red, five sixteenths of it green and a
/// tenth of it blue, about.
pub proof fn color_commands_give_their_color(state: LampState, first: u8, second: u8, third: u8)
    ensures
        has_taken(
            state,
            updated(state, Command::Rgb(first, second, third)),
            Rgb { r: first, g: second, b: third },
        ),
        has_taken(
            state,
            updated(state, Command::Hsv(first, second, third)),
            hsv_rgb(first, second, third),
        ),
        has_taken(
            state,
            updated(state, Command::Warm(first)),
            Rgb { r: first, g: (first * 80 / 255) as u8, b: (first * 25 / 255) as u8 },
        ),
{
    warm_light_is_reddish(51);
    warm_light_is_reddish(first);
}

/// Progress and wheel speed are taken as they are given, and nothing else changes, unless the
/// lamp was showing black.
pub proof fn plain_commands_give_their_number(state: LampState, progress: u8, wheel_speed: u16)
    requires
        !(state.mode == LampMode::Color && state.color == (Rgb { r: 0, g: 0, b: 0 })),
    ensures
        updated(state, Command::Progress(progress)) == (LampState { progress, ..state }),
        updated(state, Command::WheelSpeed(wheel_speed)) == (LampState { wheel_speed, ..state }),
{
}

/// A lamp that was showing black goes off at any other command too.
pub proof fn plain_commands_end_the_dark(state: LampState, progress: u8, wheel_speed: u16)
    requires
        state.mode == LampMode::Color,
        state.color == (Rgb { r: 0, g: 0, b: 0 }),
    ensures
        ({
            let off = LampState {
                mode: LampMode::Off,
                color: Rgb { r: 51, g: 16, b: 5 },
                ..state
            };
            &&& updated(state, Command::Progress(progress)) == (LampState { progress, ..off })
            &&& updated(state, Command::WheelSpeed(wheel_speed)) == (LampState {
                wheel_speed,
                ..off
            })
        }),
{
    warm_light_is_reddish(51);
}

/// Commands are carried out one by one, the last one last.
pub proof fn commands_are_carried_out_in_order(
    state: LampState,
    commands: Seq<Command>,
    command: Command,
)
    ensures
        updated_by_all(state, Seq::empty()) == state,
        updated_by_all(state, commands.push(command)) == updated(
            updated_by_all(state, commands),
            command,
        ),
{
    assert(commands.push(command).drop_last() =~= commands);
    assert(commands.push(command).last() == command);
}

/// A tick carries out its commands and then turns the wheel by its speed, round and round. It
/// does nothing else.
pub proof fn tick_only_turns_the_wheel(state: LampState, commands: Seq<Command>)
    ensures
        ({
            let told = updated_by_all(state, commands);
            let after = advanced(state, commands);
            let turned = told.wheel_pos + told.wheel_speed;
            &&& after.mode == told.mode
            &&& after.color == told.color
            &&& after.progress == told.progress
            &&& after.wheel_speed == told.wheel_speed
            &&& after.wheel_pos == if turned <= 65535 {
                turned
            } else {
                turned - 65536
            }
        }),
{
}

/// The color that a lamp falls back to is the warm light of a fifth of the greatest brightness.
pub proof fn lamp_falls_back_to_warm_light()
    ensures
        default_color() == (Rgb { r: 51, g: 16, b: 5 }),
{
    warm_light_is_reddish(51);
}

/// Whether an offset is the number of LEDs that the wheel has turned by: its share of the tube,
/// rounded down.
pub open spec fn is_turned_by(state: LampState, offset: int) -> bool {
    offset * 65535 <= state.wheel_pos * 86 < (offset + 1) * 65535
}

/// A lamp that is off shows black; one that shows its color shows that color; in rainbow mode
/// every LED has the color at the place that the wheel has turned to.
pub proof fn still_modes_show_one_color(state: LampState, index: int, offset: int)
    requires
        0 <= index < 86,
        is_turned_by(state, offset),
    ensures
        state.mode == LampMode::Off ==> led_color(state, index) == (Rgb { r: 0, g: 0, b: 0 }),
        state.mode == LampMode::Color ==> led_color(state, index) == state.color,
        state.mode == LampMode::Rainbow ==> led_color(state, index) == rainbow_color(offset),
        is_showable(state) <==> !(state.mode == LampMode::Rainbow && state.wheel_pos == 65535),
{
}

/// In space mode the rainbow lies along the tube, turned by the wheel: the first LED shows
/// the place that the wheel has turned to, every other LED the place behind that of the LED
/// before it, the first place following the last. So every place of the rainbow is shown, by
/// one LED.
pub proof fn space_shows_the_whole_rainbow(
    state: LampState,
    index: int,
    offset: int,
    place: int,
)
    requires
        state.mode == LampMode::Space,
        0 <= index < 86,
        is_turned_by(state, offset),
        0 <= place < 86,
    ensures
        led_color(state, index) == rainbow_color(
            if index + offset < 86 {
                index + offset
            } else {
                index + offset - 86
            },
        ),
        0 <= led_of_place(state, place) < 86,
        led_color(state, led_of_place(state, place)) == rainbow_color(place),
{
    let shown = index + offset;
    assert(0 <= offset <= 86);
    assert(offset == wheel_offset(state));
    assert(shown % 86 == if shown < 86 {
        shown
    } else {
        shown - 86
    });
    let led = led_of_place(state, place);
    assert((led + offset) % 86 == place);
}

/// The hues of the rainbow are spread evenly over the LEDs, in full color and brightness, and
/// warm light has one hue and saturation.
pub proof fn hues_are_spread_evenly(index: int, hue: int, level: u8)
    requires
        0 <= index < 86,
        hue * 86 <= index * 255 < (hue + 1) * 86,
    ensures
        rainbow_color(index) == hsv_rgb(hue as u8, 255, 255),
        warm_color(level as int) == hsv_rgb(10, 230, level),
{
}

/// In progress mode the tube is green as far as its share of the progress reaches, LED by
/// LED, and red behind. How pale an LED is depends on how far it lies before the place that
/// the wheel has turned to: not at all there, and by forty over a whole turn.
pub proof fn bar_is_as_long_as_the_progress(
    state: LampState,
    index: int,
    offset: int,
    distance: int,
)
    requires
        state.mode == LampMode::Progress,
        0 <= index < 86,
        is_turned_by(state, offset),
        0 <= distance < 86,
        index + distance == offset || index + distance == offset + 86 || index + distance
            == offset - 86,
    ensures
        ({
            let color = led_color(state, index);
            let pale = color.b;
            &&& pale * 86 <= 40 * distance < (pale + 1) * 86
            &&& if (index + 1) * 255 <= state.progress * 86 {
                color.g == 255 && color.r == pale
            } else {
                color.r == 255 && color.g == pale
            }
        }),
{
    assert(offset == wheel_offset(state));
    assert((86 - index + offset) % 86 == distance);
    wave_is_slight(state, index);
    bar_is_green_and_red(state, index);
}

/// A session goes on to the next topic only when it has subscribed to one, and else tries
/// again after half a second. After the last topic it looks after the pads every hundredth of
/// a second. It ends when a wait fails, and never goes on from there.
pub proof fn stages_come_in_order(index: usize, success: bool, action: Action)
    requires
        index < 7,
    ensures
        stage_after(Stage::Subscribing(index), false) == Stage::Retrying(index),
        index < 6 ==> stage_after(Stage::Subscribing(index), true) == Stage::Subscribing(
            (index + 1) as usize,
        ),
        index == 6 ==> stage_after(Stage::Subscribing(index), true) == Stage::Ticking,
        stage_after(Stage::Retrying(index), true) == Stage::Subscribing(index),
        stage_after(Stage::Retrying(index), false) == Stage::Failed,
        stage_after(Stage::Ticking, success) == Stage::Pausing,
        stage_after(Stage::Pausing, true) == Stage::Ticking,
        stage_after(Stage::Pausing, false) == Stage::Failed,
        stage_after(Stage::Failed, success) == Stage::Failed,
        is_action_of(Stage::Subscribing(index), action) ==> action is Subscribe,
        is_action_of(Stage::Retrying(index), action) <==> action == Action::Wait(500),
        is_action_of(Stage::Ticking, action) <==> action == Action::Tick,
        is_action_of(Stage::Pausing, action) <==> action == Action::Wait(10),
        is_action_of(Stage::Failed, action) <==> action == Action::Stop,
{
}

/// A session subscribes to the topics of the lamp, in this order.
pub proof fn topics_come_in_order(topic: &'static str, index: usize)
    requires
        index < 7,
        is_action_of(Stage::Subscribing(index), Action::Subscribe(topic)),
    ensures
        topic@ == match index {
            0 => "lamps/tube/mode"@,
            1 => "lamps/tube/rgb"@,
            2 => "lamps/tube/hsv"@,
            3 => "lamps/tube/hex"@,
            4 => "lamps/tube/warm"@,
            5 => "lamps/tube/progress"@,
            _ => "lamps/tube/wheel_speed"@,
        },
{
}

} // verus!
