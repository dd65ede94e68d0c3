//! What every call gives back, whoever makes it.

use vstd::prelude::*;
use vstd::utf8::decode_utf8;
use vstd::utf8::is_ascii_chars;
use vstd::utf8::valid_utf8;

use crate::color::hsv_rgb;
use crate::color::rainbow_color;
use crate::color::warm_light_is_reddish;
use crate::color::Palette;
use crate::color::Rgb;
use crate::command::Command;
use crate::guarantees::bar_is_as_long_as_the_progress;
use crate::guarantees::color_commands_give_their_color;
use crate::guarantees::each_pad_works_by_itself;
use crate::guarantees::has_taken;
use crate::guarantees::hex_digits_of_either_case_are_read;
use crate::guarantees::hues_are_spread_evenly;
use crate::guarantees::is_turned_by;
use crate::guarantees::is_written_as;
use crate::guarantees::messages_are_read_by_their_topic;
use crate::guarantees::mode_command_switches;
use crate::guarantees::names_in_any_case_name_modes;
use crate::guarantees::only_cut_characters_cannot_be_handled;
use crate::guarantees::only_names_name_modes;
use crate::guarantees::other_events_are_told_apart;
use crate::guarantees::plain_commands_give_their_number;
use crate::guarantees::space_shows_the_whole_rainbow;
use crate::guarantees::stages_come_in_order;
use crate::guarantees::still_modes_show_one_color;
use crate::guarantees::threshold_is_two_thirds;
use crate::guarantees::tick_only_turns_the_wheel;
use crate::guarantees::topics_come_in_order;
use crate::lamp::can_show;
use crate::lamp::lamp_advance;
use crate::lamp::lamp_frame;
use crate::lamp::update_lamp_state;
use crate::lamp::updated_by_all;
use crate::lamp::LampState;
use crate::laws::led_of_place;
use crate::laws::mode_name;
use crate::message::can_handle;
use crate::message::handle_mqtt_event;
use crate::message::MessageError;
use crate::message::MqttEvent;
use crate::mode::LampMode;
use crate::session::Action;
use crate::session::Session;
use crate::session::Stage;
use crate::text::byte_triple;
use crate::text::hex_triple;
use crate::text::parse_byte_triple;
use crate::text::parse_hex_triple;
use crate::text::parse_u16;
use crate::text::parse_u8;
use crate::text::parse_unsigned;
use crate::text::trim_start;
use crate::text::u16_value;
use crate::text::u8_value;
use crate::text::unsigned_value;
use crate::text_laws::digit_spelled;
use crate::text_laws::hashes;
use crate::text_laws::trimming_takes_off_the_front;
use crate::touch::after_pads;
use crate::touch::next_brightness;
use crate::touch::noted_all;
use crate::touch::touch_sensor_tick;
use crate::touch::touch_thresholds;
use crate::touch::TouchPadCall;
use crate::touch::TouchPadErr;
use crate::touch::TouchState;

verus! {

/// A round of the touch pads sends what the mode pad asks for when it has just been touched,
/// then what the brightness pad asks for when it has just been touched, each of them whatever
/// the other reads, and then what came in.
pub proof fn round_sends_what_the_pads_ask(
    threshold: (u16, u16),
    state: &mut TouchState,
    value: (u16, u16),
    received: &[Command],
    sent: Vec<Command>,
)
    requires
        call_ensures(touch_sensor_tick, (Some(threshold), state, Some(value), received), sent),
    ensures
        ({
            let before = *old(state);
            let mode_acts = value.0 < threshold.0 && !before.is_touched_mode;
            let bright_acts = value.1 < threshold.1 && !before.is_touched_bright;
            let asked = sent@.len() - received@.len();
            let first = if mode_acts {
                1int
            } else {
                0
            };
            &&& asked == first + if bright_acts {
                2int
            } else {
                0
            }
            &&& mode_acts ==> sent@[0] == Command::Mode(before.current_lamp_mode.successor())
            &&& bright_acts ==> sent@[first] == Command::Mode(LampMode::Color) && sent@[first + 1]
                == Command::Warm(next_brightness(before.current_warm_brightness))
            &&& sent@.skip(asked) == received@
        }),
{
    each_pad_works_by_itself(threshold, *old(state), value);
    assert(sent@.skip(sent@.len() - received@.len()) =~= received@);
}

/// A round of the touch pads remembers which pads are touched and what it has sent for them, and
/// then notes what came in, which leaves the pads as they are.
pub proof fn round_remembers_what_it_sent(
    threshold: (u16, u16),
    state: &mut TouchState,
    value: (u16, u16),
    received: &[Command],
    sent: Vec<Command>,
)
    requires
        call_ensures(touch_sensor_tick, (Some(threshold), state, Some(value), received), sent),
    ensures
        ({
            let before = *old(state);
            let mode_acts = value.0 < threshold.0 && !before.is_touched_mode;
            let bright_acts = value.1 < threshold.1 && !before.is_touched_bright;
            let own = TouchState {
                is_touched_mode: value.0 < threshold.0,
                is_touched_bright: value.1 < threshold.1,
                current_lamp_mode: if bright_acts {
                    LampMode::Color
                } else if mode_acts {
                    before.current_lamp_mode.successor()
                } else {
                    before.current_lamp_mode
                },
                current_warm_brightness: if bright_acts {
                    next_brightness(before.current_warm_brightness)
                } else {
                    before.current_warm_brightness
                },
            };
            &&& *final(state) == noted_all(own, received@)
            &&& received@.len() == 0 ==> *final(state) == own
            &&& final(state).is_touched_mode == own.is_touched_mode
            &&& final(state).is_touched_bright == own.is_touched_bright
        }),
{
    each_pad_works_by_itself(threshold, *old(state), value);
    let own = after_pads(Some(threshold), *old(state), Some(value));
    lemma_noting_touches_nothing(own, received@);
}

proof fn lemma_noting_touches_nothing(state: TouchState, commands: Seq<Command>)
    ensures
        noted_all(state, commands).is_touched_mode == state.is_touched_mode,
        noted_all(state, commands).is_touched_bright == state.is_touched_bright,
    decreases commands.len(),
{
    if commands.len() > 0 {
        lemma_noting_touches_nothing(state, commands.drop_last());
    }
}

/// What came in is remembered: where the last of it names a mode, that mode, and where it
/// names a brightness, that brightness.
pub proof fn round_remembers_what_came_in(
    thresholds: Option<(u16, u16)>,
    state: &mut TouchState,
    values: Option<(u16, u16)>,
    received: &[Command],
    sent: Vec<Command>,
)
    requires
        call_ensures(touch_sensor_tick, (thresholds, state, values, received), sent),
        received@.len() > 0,
    ensures
        received@.last() matches Command::Mode(mode) ==> final(state).current_lamp_mode == mode,
        received@.last() matches Command::Warm(level) ==> final(state).current_warm_brightness
            == level,
{
}

/// A round in which nothing is known of the pads sends on what came in, and nothing else.
pub proof fn round_without_pads_sends_on(
    thresholds: Option<(u16, u16)>,
    state: &mut TouchState,
    values: Option<(u16, u16)>,
    received: &[Command],
    sent: Vec<Command>,
)
    requires
        call_ensures(touch_sensor_tick, (thresholds, state, values, received), sent),
        thresholds is None || values is None,
    ensures
        sent@ == received@,
        *final(state) == noted_all(*old(state), received@),
{
    assert(sent@ =~= received@);
}

/// Nothing is touched at first, and the lamp is off at a fifth of its brightness.
pub proof fn touch_side_starts_in_the_dark(state: TouchState)
    requires
        call_ensures(TouchState::new, (), state),
    ensures
        !state.is_touched_mode,
        !state.is_touched_bright,
        state.current_lamp_mode == LampMode::Off,
        state.current_warm_brightness == 51,
{
}

/// The thresholds are two thirds of what the pads read, each of its own pad.
pub proof fn thresholds_are_two_thirds(
    mode_value: u16,
    bright_value: u16,
    thresholds: (u16, u16),
)
    requires
        call_ensures(touch_thresholds, (mode_value, bright_value), thresholds),
        2 * mode_value <= 65535,
        2 * bright_value <= 65535,
    ensures
        3 * thresholds.0 <= 2 * mode_value < 3 * (thresholds.0 + 1),
        3 * thresholds.1 <= 2 * bright_value < 3 * (thresholds.1 + 1),
{
    threshold_is_two_thirds(mode_value);
    threshold_is_two_thirds(bright_value);
}

/// A driver call goes on if and only if its code is zero, and else reports that code. What
/// was read goes to the place of its pad.
pub proof fn driver_calls_go_on_when_they_succeed(
    call: TouchPadCall,
    code: i32,
    value: u16,
    values: (u16, u16),
    next: Result<Option<TouchPadCall>, TouchPadErr>,
    next_read: Result<(Option<TouchPadCall>, (u16, u16)), TouchPadErr>,
)
    requires
        call_ensures(TouchPadCall::then_call, (call, code), next),
        call_ensures(TouchPadCall::then_read, (call, code, value, values), next_read),
    ensures
        next is Ok <==> code == 0,
        next_read is Ok <==> code == 0,
        next matches Ok(following) ==> following == call.successor(),
        next matches Err(err) ==> err.code == code && err.msg@ == call.failure(),
        next_read matches Ok((following, readings)) ==> {
            &&& following == call.successor()
            &&& readings == if call == TouchPadCall::ReadMode {
                (value, values.1)
            } else if call == TouchPadCall::ReadBright {
                (values.0, value)
            } else {
                values
            }
        },
        next_read matches Err(err) ==> err.code == code && err.msg@ == call.failure(),
{
}

/// A lamp starts off, with a warm light of a fifth of the brightness to be switched on, its
/// wheel at the first place and turning by 300 places, and no progress.
pub proof fn lamp_starts_in_the_dark(palette: Palette, state: LampState)
    requires
        call_ensures(LampState::new, (&palette,), state),
    ensures
        state.mode == LampMode::Off,
        state.color == (Rgb { r: 51, g: 16, b: 5 }),
        state.wheel_pos == 0,
        state.wheel_speed == 300,
        state.progress == 0,
{
    warm_light_is_reddish(51);
}

/// The palette has warm light of every brightness, and the color of every place of the rainbow.
pub proof fn palette_has_every_color(
    palette: Palette,
    level: u8,
    warm: Rgb,
    index: usize,
    hue: int,
    color: Rgb,
)
    requires
        call_ensures(Palette::warm, (&palette, level), warm),
        call_ensures(Palette::rainbow, (&palette, index), color),
        index < 86,
        hue * 86 <= index * 255 < (hue + 1) * 86,
    ensures
        warm == (Rgb { r: level, g: (level * 80 / 255) as u8, b: (level * 25 / 255) as u8 }),
        color == hsv_rgb(hue as u8, 255, 255),
{
    warm_light_is_reddish(level);
    hues_are_spread_evenly(index as int, hue, level);
}

/// A lamp that is given a color takes it: by red, green and blue, by hue, saturation and
/// value, or as a warm light of a brightness.
pub proof fn lamp_takes_the_color_it_is_given(
    state: &mut LampState,
    command: Command,
    palette: Palette,
)
    requires
        call_ensures(update_lamp_state, (state, command, &palette), ()),
    ensures
        command matches Command::Rgb(r, g, b) ==> has_taken(
            *old(state),
            *final(state),
            (Rgb { r, g, b }),
        ),
        command matches Command::Hsv(hue, sat, val) ==> has_taken(
            *old(state),
            *final(state),
            hsv_rgb(hue, sat, val),
        ),
        command matches Command::Warm(level) ==> has_taken(
            *old(state),
            *final(state),
            (Rgb { r: level, g: (level * 80 / 255) as u8, b: (level * 25 / 255) as u8 }),
        ),
{
    match command {
        Command::Rgb(r, g, b) => color_commands_give_their_color(*old(state), r, g, b),
        Command::Hsv(hue, sat, val) => color_commands_give_their_color(*old(state), hue, sat, val),
        Command::Warm(level) => color_commands_give_their_color(*old(state), level, 0, 0),
        _ => {},
    }
}

/// A warm light of any brightness but none is shown by a lamp in color mode, which stays in it.
pub proof fn warm_light_is_shown(
    state: &mut LampState,
    level: u8,
    palette: Palette,
)
    requires
        call_ensures(update_lamp_state, (state, Command::Warm(level), &palette), ()),
        level > 0,
        old(state).mode == LampMode::Color,
    ensures
        final(state).mode == LampMode::Color,
        final(state).color.r == level,
        final(state).color.g == level * 80 / 255,
        final(state).color.b == level * 25 / 255,
{
    color_commands_give_their_color(*old(state), level, 0, 0);
}

/// A lamp that is switched to a mode, or given a progress or a wheel speed, takes it and
/// keeps the rest, unless its color is black and it shows its color.
pub proof fn lamp_takes_what_it_is_told(state: &mut LampState, command: Command, palette: Palette)
    requires
        call_ensures(update_lamp_state, (state, command, &palette), ()),
        old(state).color.r > 0 || old(state).color.g > 0 || old(state).color.b > 0,
    ensures
        command matches Command::Mode(mode) ==> *final(state) == (LampState {
            mode,
            ..*old(state)
        }),
        command matches Command::Progress(progress) ==> *final(state) == (LampState {
            progress,
            ..*old(state)
        }),
        command matches Command::WheelSpeed(wheel_speed) ==> *final(state) == (LampState {
            wheel_speed,
            ..*old(state)
        }),
{
    match command {
        Command::Mode(mode) => mode_command_switches(*old(state), mode),
        Command::Progress(progress) => plain_commands_give_their_number(*old(state), progress, 0),
        Command::WheelSpeed(speed) => plain_commands_give_their_number(*old(state), 0, speed),
        _ => {},
    }
}

/// A lamp whose color is black takes what it is told too, but goes off where it would show its
/// color, and is warm when it is next switched on.
pub proof fn black_lamp_takes_what_it_is_told(
    state: &mut LampState,
    command: Command,
    palette: Palette,
)
    requires
        call_ensures(update_lamp_state, (state, command, &palette), ()),
        old(state).color == (Rgb { r: 0, g: 0, b: 0 }),
        command is Mode || command is Progress || command is WheelSpeed,
    ensures
        ({
            let mode = if let Command::Mode(mode) = command {
                mode
            } else {
                old(state).mode
            };
            let dark = mode == LampMode::Color;
            *final(state) == (LampState {
                mode: if dark {
                    LampMode::Off
                } else {
                    mode
                },
                color: if dark {
                    Rgb { r: 51, g: 16, b: 5 }
                } else {
                    Rgb { r: 0, g: 0, b: 0 }
                },
                wheel_pos: old(state).wheel_pos,
                wheel_speed: if let Command::WheelSpeed(wheel_speed) = command {
                    wheel_speed
                } else {
                    old(state).wheel_speed
                },
                progress: if let Command::Progress(progress) = command {
                    progress
                } else {
                    old(state).progress
                },
            })
        }),
{
    warm_light_is_reddish(51);
}

/// A lamp never shows black in color mode once it has been told anything: it goes off.
pub proof fn told_lamp_is_off_or_bright(state: &mut LampState, command: Command, palette: Palette)
    requires
        call_ensures(update_lamp_state, (state, command, &palette), ()),
    ensures
        final(state).mode == LampMode::Color ==> final(state).color != (Rgb { r: 0, g: 0, b: 0 }),
{
}

/// A tick carries out all the commands, and then turns the wheel by its speed, round and round.
pub proof fn tick_turns_the_wheel(
    state: &mut LampState,
    commands: &[Command],
    palette: Palette,
)
    requires
        call_ensures(lamp_advance, (state, commands, &palette), ()),
    ensures
        ({
            let told = updated_by_all(*old(state), commands@);
            let turned = told.wheel_pos + told.wheel_speed;
            let after = *final(state);
            &&& after.wheel_pos == turned || after.wheel_pos == turned - 65536
            &&& after == (LampState { wheel_pos: after.wheel_pos, ..told })
        }),
        commands@.len() == 0 ==> *final(state) == (LampState {
            wheel_pos: final(state).wheel_pos,
            ..*old(state)
        }),
{
    tick_only_turns_the_wheel(*old(state), commands@);
}

/// There is something to show but at the last place of the wheel in rainbow mode.
pub proof fn almost_everything_can_be_shown(state: LampState, showable: bool)
    requires
        call_ensures(can_show, (&state,), showable),
    ensures
        showable == !(state.mode == LampMode::Rainbow && state.wheel_pos == 65535),
{
}

/// The tube is dark when it is off, has the color of the lamp in color mode, and the color at
/// the place that the wheel has turned to in rainbow mode, on every LED.
pub proof fn frame_of_one_color(
    state: LampState,
    palette: Palette,
    frame: [Rgb; 86],
    index: int,
    offset: int,
)
    requires
        call_ensures(lamp_frame, (&state, &palette), frame),
        0 <= index < 86,
        is_turned_by(state, offset),
    ensures
        state.mode == LampMode::Off ==> frame@[index] == (Rgb { r: 0, g: 0, b: 0 }),
        state.mode == LampMode::Color ==> frame@[index] == state.color,
        state.mode == LampMode::Rainbow ==> frame@[index] == rainbow_color(offset),
{
    still_modes_show_one_color(state, index, offset);
}

/// In space mode the LEDs show the rainbow from the place on that the wheel has turned to,
/// one place after the other and round to the first, so that every place is shown.
pub proof fn frame_of_the_whole_rainbow(
    state: LampState,
    palette: Palette,
    frame: [Rgb; 86],
    index: int,
    offset: int,
    place: int,
)
    requires
        call_ensures(lamp_frame, (&state, &palette), frame),
        state.mode == LampMode::Space,
        0 <= index < 86,
        is_turned_by(state, offset),
        0 <= place < 86,
    ensures
        frame@[index] == rainbow_color(
            if index + offset < 86 {
                index + offset
            } else {
                index + offset - 86
            },
        ),
        0 <= led_of_place(state, place) < 86,
        frame@[led_of_place(state, place)] == rainbow_color(place),
{
    space_shows_the_whole_rainbow(state, index, offset, place);
}

/// In progress mode an LED is green if its share of the tube is done, and else red, with a
/// pale wave along the tube.
pub proof fn frame_of_the_progress(
    state: LampState,
    palette: Palette,
    frame: [Rgb; 86],
    index: int,
    offset: int,
    distance: int,
)
    requires
        call_ensures(lamp_frame, (&state, &palette), frame),
        state.mode == LampMode::Progress,
        0 <= index < 86,
        is_turned_by(state, offset),
        0 <= distance < 86,
        index + distance == offset || index + distance == offset + 86 || index + distance
            == offset - 86,
    ensures
        (index + 1) * 255 <= state.progress * 86 <==> frame@[index].g == 255 && frame@[index].r
            == frame@[index].b,
        (index + 1) * 255 > state.progress * 86 <==> frame@[index].r == 255 && frame@[index].g
            == frame@[index].b,
        frame@[index].b * 86 <= 40 * distance < (frame@[index].b + 1) * 86,
{
    bar_is_as_long_as_the_progress(state, index, offset, distance);
}

/// What a handled message is answered: it is told apart by its topic, and read by the rule of
/// that.
pub proof fn answers_go_by_the_topic(
    topic: &str,
    data: &[u8],
    answer: Result<Vec<Command>, MessageError>,
)
    requires
        call_ensures(
            handle_mqtt_event,
            (&MqttEvent::Received { topic: Some(topic), data },),
            answer,
        ),
        valid_utf8(data@),
    ensures
        topic@ == "lamps/tube/rgb"@ ==> match byte_triple(data@) {
            Some((red, green, blue)) => answer matches Ok(sent) && sent@ == seq![
                Command::Mode(LampMode::Color),
                Command::Rgb(red, green, blue),
            ],
            None => answer matches Err(e) && e == MessageError::Rgb,
        },
        topic@ == "lamps/tube/hsv"@ ==> match byte_triple(data@) {
            Some((hue, sat, val)) => answer matches Ok(sent) && sent@ == seq![
                Command::Mode(LampMode::Color),
                Command::Hsv(hue, sat, val),
            ],
            None => answer matches Err(e) && e == MessageError::Hsv,
        },
        topic@ == "lamps/tube/hex"@ ==> match hex_triple(data@) {
            Some((red, green, blue)) => answer matches Ok(sent) && sent@ == seq![
                Command::Mode(LampMode::Color),
                Command::Rgb(red, green, blue),
            ],
            None => answer matches Err(e) && e == MessageError::Hex,
        },
        topic@ == "lamps/tube/warm"@ ==> match u8_value(data@, 10) {
            Some(level) => answer matches Ok(sent) && sent@ == seq![
                Command::Mode(LampMode::Color),
                Command::Warm(level),
            ],
            None => answer matches Err(e) && e == MessageError::Warm,
        },
        topic@ == "lamps/tube/progress"@ ==> match u8_value(data@, 10) {
            Some(progress) => answer matches Ok(sent) && sent@ == seq![Command::Progress(progress)],
            None => answer matches Err(e) && e == MessageError::Progress,
        },
        topic@ == "lamps/tube/wheel_speed"@ ==> match u16_value(data@) {
            Some(speed) => answer matches Ok(sent) && sent@ == seq![Command::WheelSpeed(speed)],
            None => answer matches Err(e) && e == MessageError::WheelSpeed,
        },
{
    messages_are_read_by_their_topic(topic, data);
}

/// A message that names a mode in ASCII letters of any case switches to that mode, and one
/// that names none is refused.
pub proof fn answers_to_the_name_of_a_mode(
    topic: &str,
    data: &[u8],
    mode: LampMode,
    answer: Result<Vec<Command>, MessageError>,
)
    requires
        call_ensures(
            handle_mqtt_event,
            (&MqttEvent::Received { topic: Some(topic), data },),
            answer,
        ),
        valid_utf8(data@),
        is_ascii_chars(decode_utf8(data@)),
        topic@ == "lamps/tube/mode"@,
    ensures
        is_written_as(decode_utf8(data@), mode_name(mode)) <==> (answer matches Ok(sent)
            && sent@ == seq![Command::Mode(mode)]),
        answer matches Err(e) ==> e == MessageError::Mode,
{
    messages_are_read_by_their_topic(topic, data);
    names_in_any_case_name_modes(decode_utf8(data@), mode);
    if let Ok(sent) = answer {
        assert(sent@ == seq![Command::Mode(mode)] ==> sent@[0] == Command::Mode(mode));
    }
}

/// What is not UTF-8, has no topic or comes on a topic that the lamp does not listen to is
/// refused, each in its own way, and what is no message asks for nothing.
pub proof fn answers_to_everything_else(
    topic: Option<&str>,
    data: &[u8],
    answer: Result<Vec<Command>, MessageError>,
    answer_to_other: Result<Vec<Command>, MessageError>,
)
    requires
        call_ensures(handle_mqtt_event, (&MqttEvent::Received { topic, data },), answer),
        call_ensures(handle_mqtt_event, (&MqttEvent::Other,), answer_to_other),
    ensures
        !valid_utf8(data@) <==> (answer matches Err(e) && e == MessageError::NotUtf8),
        valid_utf8(data@) && topic is None <==> (answer matches Err(e) && e
            == MessageError::NoTopic),
        valid_utf8(data@) && (topic matches Some(topic) && topic@ != "lamps/tube/mode"@ && topic@
            != "lamps/tube/rgb"@ && topic@ != "lamps/tube/hsv"@ && topic@ != "lamps/tube/hex"@
            && topic@ != "lamps/tube/warm"@ && topic@ != "lamps/tube/progress"@ && topic@
            != "lamps/tube/wheel_speed"@) <==> (answer matches Err(e) && e
            == MessageError::UnexpectedTopic),
        answer_to_other matches Ok(sent) && sent@.len() == 0,
{
    other_events_are_told_apart(topic, data);
}

/// Six hexadecimal digits in letters of either case, behind any number of `#`, are answered
/// with the color that they spell.
pub proof fn answer_to_a_color_in_hexadecimal(
    topic: &str,
    data: &[u8],
    count: nat,
    digits: Seq<u8>,
    red: u8,
    green: u8,
    blue: u8,
    answer: Result<Vec<Command>, MessageError>,
)
    requires
        call_ensures(
            handle_mqtt_event,
            (&MqttEvent::Received { topic: Some(topic), data },),
            answer,
        ),
        topic@ == "lamps/tube/hex"@,
        data@ == hashes(count) + digits,
        digits.len() == 6,
        digit_spelled(digits[0]) == red as int / 16,
        digit_spelled(digits[1]) == red as int % 16,
        digit_spelled(digits[2]) == green as int / 16,
        digit_spelled(digits[3]) == green as int % 16,
        digit_spelled(digits[4]) == blue as int / 16,
        digit_spelled(digits[5]) == blue as int % 16,
    ensures
        answer matches Ok(sent) && sent@ == seq![
            Command::Mode(LampMode::Color),
            Command::Rgb(red, green, blue),
        ],
{
    hex_digits_of_either_case_are_read(topic, data, count, digits, red, green, blue);
}

/// Every event can be handled but a color in hexadecimal that would be cut within a character.
pub proof fn almost_everything_can_be_handled(
    topic: Option<&str>,
    data: &[u8],
    count: nat,
    hex: Seq<u8>,
    manageable: bool,
    other_manageable: bool,
)
    requires
        call_ensures(can_handle, (&MqttEvent::Received { topic, data },), manageable),
        call_ensures(can_handle, (&MqttEvent::Other,), other_manageable),
        data@ == hashes(count) + hex,
        hex.len() == 0 || hex[0] != '#' as u8,
    ensures
        !manageable <==> {
            &&& valid_utf8(data@)
            &&& topic matches Some(topic) && topic@ == "lamps/tube/hex"@
            &&& hex.len() == 6
            &&& (0x80 <= hex[2] < 0xc0) || (0x80 <= hex[4] < 0xc0 && u8_value(
                seq![hex[0], hex[1]],
                16,
            ) is Some)
        },
        other_manageable,
{
    only_cut_characters_cannot_be_handled(topic, data, count, hex);
}

/// Texts are read as numbers and colors by the rules for them, and trimmed of all that is at
/// their front.
pub proof fn texts_are_read_by_their_rules(
    text: &[u8],
    radix: u32,
    max: u32,
    byte: u8,
    number: Option<u32>,
    small: Option<u8>,
    decimal: Option<u16>,
    triple: Option<(u8, u8, u8)>,
    hex: Option<(u8, u8, u8)>,
    rest: &[u8],
)
    requires
        2 <= radix <= 36,
        call_ensures(parse_unsigned, (text, radix, max), number),
        call_ensures(parse_u8, (text, radix), small),
        call_ensures(parse_u16, (text,), decimal),
        call_ensures(parse_byte_triple, (text,), triple),
        call_ensures(parse_hex_triple, (text,), hex),
        call_ensures(trim_start, (text, byte), rest),
    ensures
        match unsigned_value(text@, radix as int, max as int) {
            Some(value) => number matches Some(n) && n == value,
            None => number is None,
        },
        small == u8_value(text@, radix as int),
        decimal == u16_value(text@),
        triple == byte_triple(text@),
        hex == hex_triple(text@),
        rest@.len() <= text@.len(),
        rest@ == text@.skip(text@.len() - rest@.len()),
        forall|i: int| 0 <= i < text@.len() - rest@.len() ==> #[trigger] text@[i] == byte,
        rest@.len() > 0 ==> rest@[0] != byte,
{
    trimming_takes_off_the_front(text@, byte);
}

/// The next mode comes in order, and a mode is read from its lower-case name and from nothing
/// else.
pub proof fn modes_are_read_and_followed(
    mode: LampMode,
    next: LampMode,
    name: &str,
    named: Result<LampMode, ()>,
)
    requires
        call_ensures(LampMode::next, (&mode,), next),
        call_ensures(LampMode::from_lowercase, (name,), named),
    ensures
        next == match mode {
            LampMode::Off => LampMode::Color,
            LampMode::Color => LampMode::Rainbow,
            LampMode::Rainbow => LampMode::Space,
            LampMode::Space => LampMode::Off,
            LampMode::Progress => LampMode::Off,
        },
        named == Ok::<LampMode, ()>(mode) <==> name@ == mode_name(mode),
{
    only_names_name_modes(name@, mode);
}

/// A session starts with the first topic, and says what belongs to its stage.
pub proof fn session_says_what_to_do(start: Session, session: Session, action: Action)
    requires
        call_ensures(Session::new, (), start),
        call_ensures(Session::action, (&session,), action),
    ensures
        start@ == Stage::Subscribing(0),
        session@ matches Stage::Subscribing(index) ==> index < 7 ==> (action matches
            Action::Subscribe(topic) && topic@ == match index {
            0 => "lamps/tube/mode"@,
            1 => "lamps/tube/rgb"@,
            2 => "lamps/tube/hsv"@,
            3 => "lamps/tube/hex"@,
            4 => "lamps/tube/warm"@,
            5 => "lamps/tube/progress"@,
            _ => "lamps/tube/wheel_speed"@,
        }),
        session@ is Retrying ==> action == Action::Wait(500),
        session@ == Stage::Ticking ==> action == Action::Tick,
        session@ == Stage::Pausing ==> action == Action::Wait(10),
        session@ == Stage::Failed ==> action == Action::Stop,
{
    if let Stage::Subscribing(index) = session@ {
        if let Action::Subscribe(topic) = action {
            if index < 7 {
                topics_come_in_order(topic, index);
            }
        }
    }
}

/// A session goes from topic to topic, tries again what failed, and then looks after the pads
/// for as long as it can wait.
pub proof fn session_goes_on(session: &mut Session, success: bool)
    requires
        call_ensures(Session::proceed, (session, success), ()),
    ensures
        old(session)@ matches Stage::Subscribing(index) ==> index < 7 ==> final(session)@
            == if !success {
            Stage::Retrying(index)
        } else if index < 6 {
            Stage::Subscribing((index + 1) as usize)
        } else {
            Stage::Ticking
        },
        old(session)@ matches Stage::Retrying(index) ==> final(session)@ == if success {
            Stage::Subscribing(index)
        } else {
            Stage::Failed
        },
        old(session)@ == Stage::Ticking ==> final(session)@ == Stage::Pausing,
        old(session)@ == Stage::Pausing ==> final(session)@ == if success {
            Stage::Ticking
        } else {
            Stage::Failed
        },
        old(session)@ == Stage::Failed ==> final(session)@ == Stage::Failed,
{
    stages_come_in_order(0, success, Action::Tick);
}

} // verus!
