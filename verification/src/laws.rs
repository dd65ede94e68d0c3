//! What holds of the lamp as a whole.

use vstd::prelude::*;
use vstd::utf8::encode_utf8_valid_utf8;
use vstd::utf8::encode_utf8_decode_utf8;
use vstd::utf8::encode_utf8;
use vstd::utf8::is_ascii_chars;
use vstd::utf8::valid_utf8;

use crate::color::black;
use crate::color::brightness;
use crate::color::rainbow_is_pure;
use crate::color::value_is_the_strongest_component;
use crate::color::warm_light_is_reddish;
use crate::color::Rgb;
use crate::color::DEFAULT_BRIGHTNESS;
use crate::color::NUM_LEDS;
use crate::command::Command;
use crate::lamp::advanced;
use crate::lamp::bar_hue;
use crate::lamp::bar_length;
use crate::lamp::commanded;
use crate::lamp::default_color;
use crate::lamp::given_brightness;
use crate::lamp::is_dark;
use crate::lamp::is_showable;
use crate::lamp::led_color;
use crate::lamp::updated;
use crate::lamp::updated_by_all;
use crate::lamp::wave_saturation;
use crate::lamp::wheel_offset;
use crate::lamp::LampState;
use crate::message::color_commands;
use crate::message::event_commands;
use crate::message::hex_command;
use crate::message::hsv_command;
use crate::message::is_manageable;
use crate::message::mode_command;
use crate::message::progress_command;
use crate::message::rgb_command;
use crate::message::single_command;
use crate::message::topic_commands;
use crate::message::warm_command;
use crate::message::wheel_speed_command;
use crate::message::MessageError;
use crate::message::MqttEvent;
use crate::message::MQTT_TOPIC_HEX;
use crate::message::MQTT_TOPIC_HSV;
use crate::message::MQTT_TOPIC_MODE;
use crate::message::MQTT_TOPIC_PROGRESS;
use crate::message::MQTT_TOPIC_RGB;
use crate::message::MQTT_TOPIC_WARM;
use crate::message::MQTT_TOPIC_WHEEL_SPEED;
use crate::mode::ascii_lowercase_char;
use crate::mode::lowercase;
use crate::mode::mode_named;
use crate::mode::LampMode;
use crate::session::stage_after;
use crate::session::topics;
use crate::session::Stage;
use crate::session::NUM_TOPICS;
use crate::text_laws::decimals_are_read_back;
use crate::text_laws::hashes;
use crate::text_laws::hashes_change_nothing;
use crate::text_laws::ascii_is_utf8;
use crate::text_laws::hex_is_read_back;
use crate::text_laws::hex_text;
use crate::text_laws::is_ascii_text;
use crate::text_laws::numeral;
use crate::text_laws::triple_is_read_back;
use crate::text_laws::triple_text;
use crate::touch::after_mode_pad;
use crate::touch::after_pads;
use crate::touch::bright_pad_commands;
use crate::touch::mode_pad_commands;
use crate::touch::next_brightness;
use crate::touch::noted_all;
use crate::touch::pad_commands;
use crate::touch::threshold;
use crate::touch::TouchPadCall;
use crate::touch::TouchState;

verus! {

/// Four touches on the mode pad come back to the mode they started from, unless that was
/// the progress bar, which the pad switches off and never on.
pub proof fn modes_go_round(mode: LampMode)
    ensures
        mode != LampMode::Progress ==> mode.successor().successor().successor().successor()
            == mode,
        mode == LampMode::Progress ==> mode.successor() == LampMode::Off,
        mode.successor() != LampMode::Progress,
{
}

/// The name of a mode.
pub open spec fn mode_name(mode: LampMode) -> Seq<char> {
    match mode {
        LampMode::Off => "off"@,
        LampMode::Color => "color"@,
        LampMode::Rainbow => "rainbow"@,
        LampMode::Space => "space"@,
        LampMode::Progress => "progress"@,
    }
}

/// Every mode can be named, in ASCII letters of any case.
pub proof fn modes_can_be_named(mode: LampMode, text: Seq<char>)
    requires
        is_ascii_chars(text),
        text.map_values(|c: char| ascii_lowercase_char(c)) == mode_name(mode),
    ensures
        mode_named(lowercase(text)) == Ok::<LampMode, ()>(mode),
{
    reveal_strlit("off");
    reveal_strlit("color");
    reveal_strlit("rainbow");
    reveal_strlit("space");
    reveal_strlit("progress");
    assert("off"@.len() == 3);
    assert("color"@.len() == 5);
    assert("rainbow"@.len() == 7);
    assert("space"@.len() == 5);
    assert("progress"@.len() == 8);
    assert("color"@[0] == 'c');
    assert("space"@[0] == 's');
}

/// No two topics are the same, so that every topic is read by its own rule.
pub proof fn topics_are_told_apart(data: Seq<u8>)
    ensures
        topics().no_duplicates(),
        topic_commands(MQTT_TOPIC_MODE@, data) == single_command(
            mode_command(data),
            MessageError::Mode,
        ),
        topic_commands(MQTT_TOPIC_RGB@, data) == color_commands(
            rgb_command(data),
            MessageError::Rgb,
        ),
        topic_commands(MQTT_TOPIC_HSV@, data) == color_commands(
            hsv_command(data),
            MessageError::Hsv,
        ),
        topic_commands(MQTT_TOPIC_HEX@, data) == color_commands(
            hex_command(data),
            MessageError::Hex,
        ),
        topic_commands(MQTT_TOPIC_WARM@, data) == color_commands(
            warm_command(data),
            MessageError::Warm,
        ),
        topic_commands(MQTT_TOPIC_PROGRESS@, data) == single_command(
            progress_command(data),
            MessageError::Progress,
        ),
        topic_commands(MQTT_TOPIC_WHEEL_SPEED@, data) == single_command(
            wheel_speed_command(data),
            MessageError::WheelSpeed,
        ),
{
    reveal_strlit("lamps/tube/mode");
    reveal_strlit("lamps/tube/rgb");
    reveal_strlit("lamps/tube/hsv");
    reveal_strlit("lamps/tube/hex");
    reveal_strlit("lamps/tube/warm");
    reveal_strlit("lamps/tube/progress");
    reveal_strlit("lamps/tube/wheel_speed");
    assert(MQTT_TOPIC_MODE@.len() == 15 && MQTT_TOPIC_MODE@[11] == 'm');
    assert(MQTT_TOPIC_RGB@.len() == 14 && MQTT_TOPIC_RGB@[11] == 'r');
    assert(MQTT_TOPIC_HSV@.len() == 14 && MQTT_TOPIC_HSV@[12] == 's');
    assert(MQTT_TOPIC_HEX@.len() == 14 && MQTT_TOPIC_HEX@[12] == 'e' && MQTT_TOPIC_HEX@[11] == 'h');
    assert(MQTT_TOPIC_HSV@[11] == 'h');
    assert(MQTT_TOPIC_WARM@.len() == 15 && MQTT_TOPIC_WARM@[11] == 'w');
    assert(MQTT_TOPIC_PROGRESS@.len() == 19);
    assert(MQTT_TOPIC_WHEEL_SPEED@.len() == 22);
}

/// Every color can be sent in decimal, and in hexadecimal behind any number of `#`, and both
/// ask for the same.
pub proof fn every_color_can_be_sent(
    topic: &str,
    data: &[u8],
    count: nat,
    red: u8,
    green: u8,
    blue: u8,
)
    requires
        (topic@ == MQTT_TOPIC_RGB@ && data@ == triple_text(red, green, blue)) || (topic@
            == MQTT_TOPIC_HEX@ && data@ == hashes(count) + hex_text(red, green, blue)),
    ensures
        is_manageable(MqttEvent::Received { topic: Some(topic), data }),
        event_commands(MqttEvent::Received { topic: Some(topic), data }) == Ok::<
            Seq<Command>,
            MessageError,
        >(seq![Command::Mode(LampMode::Color), Command::Rgb(red, green, blue)]),
{
    let hex = hex_text(red, green, blue);
    triple_is_read_back(red, green, blue);
    hex_is_read_back(red, green, blue);
    hashes_change_nothing(count, hex);
    if topic@ == MQTT_TOPIC_HEX@ && data@ == hashes(count) + hex {
        assert(is_ascii_text(data@));
        assert(hex[2] < 0x80 && hex[4] < 0x80);
    }
    ascii_is_utf8(data@);
    topics_are_told_apart(data@);
}

/// Every hue, saturation and value can be sent.
pub proof fn every_hue_can_be_sent(topic: &str, data: &[u8], hue: u8, sat: u8, val: u8)
    requires
        topic@ == MQTT_TOPIC_HSV@,
        data@ == triple_text(hue, sat, val),
    ensures
        event_commands(MqttEvent::Received { topic: Some(topic), data }) == Ok::<
            Seq<Command>,
            MessageError,
        >(seq![Command::Mode(LampMode::Color), Command::Hsv(hue, sat, val)]),
{
    triple_is_read_back(hue, sat, val);
    ascii_is_utf8(data@);
    topics_are_told_apart(data@);
}

/// Every brightness, every progress and every wheel speed can be sent.
pub proof fn every_number_can_be_sent(topic: &str, data: &[u8], byte: u8, word: u16)
    ensures
        topic@ == MQTT_TOPIC_WARM@ && data@ == numeral(byte as int, 10) ==> event_commands(
            MqttEvent::Received { topic: Some(topic), data },
        ) == Ok::<Seq<Command>, MessageError>(
            seq![Command::Mode(LampMode::Color), Command::Warm(byte)],
        ),
        topic@ == MQTT_TOPIC_PROGRESS@ && data@ == numeral(byte as int, 10) ==> event_commands(
            MqttEvent::Received { topic: Some(topic), data },
        ) == Ok::<Seq<Command>, MessageError>(seq![Command::Progress(byte)]),
        topic@ == MQTT_TOPIC_WHEEL_SPEED@ && data@ == numeral(word as int, 10) ==> event_commands(
            MqttEvent::Received { topic: Some(topic), data },
        ) == Ok::<Seq<Command>, MessageError>(seq![Command::WheelSpeed(word)]),
{
    decimals_are_read_back(byte, word);
    topics_are_told_apart(data@);
    if data@ == numeral(byte as int, 10) || data@ == numeral(word as int, 10) {
        ascii_is_utf8(data@);
    }
}

/// Every mode can be sent, by its name in ASCII letters of any case.
pub proof fn every_mode_can_be_sent(topic: &str, data: &[u8], mode: LampMode, text: Seq<char>)
    requires
        topic@ == MQTT_TOPIC_MODE@,
        data@ == encode_utf8(text),
        is_ascii_chars(text),
        text.map_values(|c: char| ascii_lowercase_char(c)) == mode_name(mode),
    ensures
        event_commands(MqttEvent::Received { topic: Some(topic), data }) == Ok::<
            Seq<Command>,
            MessageError,
        >(seq![Command::Mode(mode)]),
{
    modes_can_be_named(mode, text);
    encode_utf8_valid_utf8(text);
    encode_utf8_decode_utf8(text);
    topics_are_told_apart(data@);
}

/// A message that is not UTF-8, that has no topic, or whose topic is none of the lamp's
/// stands for no command.
pub proof fn strange_messages_are_refused(topic: Option<&str>, data: &[u8])
    requires
        !valid_utf8(data@) || topic is None || !topics().contains((topic->0)@),
    ensures
        event_commands(MqttEvent::Received { topic, data }) is Err,
{
    if valid_utf8(data@) {
        if let Some(topic) = topic {
            let all = topics();
            assert(all[0] == MQTT_TOPIC_MODE@);
            assert(all[1] == MQTT_TOPIC_RGB@);
            assert(all[2] == MQTT_TOPIC_HSV@);
            assert(all[3] == MQTT_TOPIC_HEX@);
            assert(all[4] == MQTT_TOPIC_WARM@);
            assert(all[5] == MQTT_TOPIC_PROGRESS@);
            assert(all[6] == MQTT_TOPIC_WHEEL_SPEED@);
        }
    }
}

/// The lamp never shows black as a color: a command leaves it with another color or in
/// another mode.
pub proof fn lamp_is_never_dark(state: LampState, command: Command)
    ensures
        !is_dark(updated(state, command)),
{
}

/// The lamp starts with a color that is not black, and falls back to it.
pub proof fn default_color_is_not_black()
    ensures
        default_color() == (Rgb { r: 51, g: 16, b: 5 }),
        default_color() != black(),
{
    warm_light_is_reddish(DEFAULT_BRIGHTNESS);
}

/// The color that a command gives is as bright as the command says.
pub proof fn given_brightness_is_kept(state: LampState, command: Command)
    ensures
        given_brightness(command) matches Some(level) ==> brightness(
            commanded(state, command).color,
        ) == level,
{
    match command {
        Command::Hsv(hue, sat, val) => value_is_the_strongest_component(hue, sat, val),
        Command::Warm(level) => value_is_the_strongest_component(10, 230, level),
        _ => {},
    }
}

/// While the lamp shows a color, a color without brightness switches it off, and no other
/// color does.
pub proof fn no_brightness_switches_off(state: LampState, command: Command)
    requires
        state.mode == LampMode::Color,
    ensures
        given_brightness(command) matches Some(level) ==> updated(state, command).mode == (
        if level == 0 {
            LampMode::Off
        } else {
            LampMode::Color
        }),
{
    given_brightness_is_kept(state, command);
}

/// A lamp that went dark lights up in the color it started with when it is switched on again.
pub proof fn dark_lamp_lights_up_again(state: LampState, command: Command)
    requires
        is_dark(commanded(state, command)),
    ensures
        ({
            let off = updated(state, command);
            &&& off.mode == LampMode::Off
            &&& updated(off, Command::Mode(LampMode::Color)) == (LampState {
                mode: LampMode::Color,
                color: default_color(),
                ..off
            })
        }),
{
    default_color_is_not_black();
}

/// A lamp that does not show black as a color does not come to do so in a tick.
pub proof fn ticks_never_make_dark(state: LampState, commands: Seq<Command>)
    requires
        !is_dark(state),
    ensures
        !is_dark(updated_by_all(state, commands)),
        !is_dark(advanced(state, commands)),
    decreases commands.len(),
{
    if commands.len() > 0 {
        ticks_never_make_dark(state, commands.drop_last());
    }
}

/// Commands do not turn the wheel, and each kind of command leaves alone what it does not
/// give. Only going dark changes the mode or the color besides.
pub proof fn commands_keep_to_their_own(state: LampState, command: Command)
    requires
        !is_dark(state),
    ensures
        ({
            let after = updated(state, command);
            &&& after.wheel_pos == state.wheel_pos
            &&& command !is WheelSpeed ==> after.wheel_speed == state.wheel_speed
            &&& command !is Progress ==> after.progress == state.progress
            &&& command is Progress || command is WheelSpeed ==> after.mode == state.mode
                && after.color == state.color
            &&& command !is Mode ==> after.mode == state.mode || (state.mode == LampMode::Color
                && after.mode == LampMode::Off)
            &&& command is Mode ==> after.color == state.color || (after.mode == LampMode::Off
                && state.color == black())
        }),
{
}

/// However many commands come in, the wheel turns once in a tick, by the speed that holds
/// after them.
pub proof fn wheel_turns_once(state: LampState, commands: Seq<Command>)
    ensures
        updated_by_all(state, commands).wheel_pos == state.wheel_pos,
        advanced(state, commands).wheel_pos == (state.wheel_pos + advanced(
            state,
            commands,
        ).wheel_speed) % 0x1_0000,
    decreases commands.len(),
{
    if commands.len() > 0 {
        wheel_turns_once(state, commands.drop_last());
    }
}

/// Commands that come in one tick do the same as when they come in two rows, one after the
/// other.
pub proof fn commands_can_be_split(state: LampState, first: Seq<Command>, second: Seq<Command>)
    ensures
        updated_by_all(state, first + second) == updated_by_all(
            updated_by_all(state, first),
            second,
        ),
    decreases second.len(),
{
    let all = first + second;
    if second.len() == 0 {
        assert(all =~= first);
    } else {
        assert(all.drop_last() =~= first + second.drop_last());
        assert(all.last() == second.last());
        commands_can_be_split(state, first, second.drop_last());
    }
}

proof fn lemma_two_commands(state: LampState, first: Command, second: Command)
    ensures
        updated_by_all(state, seq![first, second]) == updated(updated(state, first), second),
{
    let both = seq![first, second];
    assert(both.drop_last() =~= seq![first]);
    assert(both.drop_last().drop_last() =~= Seq::<Command>::empty());
    assert(updated_by_all(state, both.drop_last().drop_last()) == state);
    assert(updated_by_all(state, both.drop_last()) == updated(state, first));
}

/// A message with a color makes a lamp of whatever mode show that color, and a message
/// with black makes it go off. Only a lamp that has black for its own color is switched
/// off on the way.
pub proof fn color_message_is_shown(state: LampState, command: Command)
    requires
        command is Rgb || command is Hsv || command is Warm,
        state.color != black(),
    ensures
        ({
            let after = updated_by_all(state, seq![Command::Mode(LampMode::Color), command]);
            let color = commanded(state, command).color;
            if color == black() {
                after.mode == LampMode::Off && after.color == default_color()
            } else {
                after.mode == LampMode::Color && forall|i: int|
                    0 <= i < NUM_LEDS ==> #[trigger] led_color(after, i) == color
            }
        }),
{
    lemma_two_commands(state, Command::Mode(LampMode::Color), command);
}

/// The commands that a row of events stands for. An event that is refused adds none.
pub open spec fn commands_of_all(events: Seq<MqttEvent>) -> Seq<Command>
    decreases events.len(),
{
    if events.len() == 0 {
        seq![]
    } else {
        commands_of_all(events.drop_last()) + match event_commands(events.last()) {
            Ok(commands) => commands,
            Err(_) => seq![],
        }
    }
}

proof fn lemma_color_commands_keep_color(state: LampState, command: Command)
    requires
        state.color != black(),
        command is Rgb || command is Hsv || command is Warm,
    ensures
        updated_by_all(state, seq![Command::Mode(LampMode::Color), command]).color != black(),
{
    default_color_is_not_black();
    lemma_two_commands(state, Command::Mode(LampMode::Color), command);
}

proof fn lemma_one_command(state: LampState, command: Command)
    ensures
        updated_by_all(state, seq![command]) == updated(state, command),
{
    assert(seq![command].drop_last() =~= Seq::<Command>::empty());
    assert(updated_by_all(state, seq![command].drop_last()) == state);
}

proof fn lemma_event_keeps_color(state: LampState, event: MqttEvent)
    requires
        state.color != black(),
    ensures
        event_commands(event) matches Ok(commands) ==> updated_by_all(state, commands).color
            != black(),
{
    default_color_is_not_black();
    if let Ok(commands) = event_commands(event) {
        if commands.len() == 2 {
            let command = commands[1];
            assert(commands =~= seq![Command::Mode(LampMode::Color), command]);
            lemma_color_commands_keep_color(state, command);
        } else if commands.len() == 1 {
            assert(commands =~= seq![commands[0]]);
            lemma_one_command(state, commands[0]);
        }
    }
}

proof fn lemma_events_keep_color(state: LampState, events: Seq<MqttEvent>)
    requires
        state.color != black(),
    ensures
        updated_by_all(state, commands_of_all(events)).color != black(),
    decreases events.len(),
{
    if events.len() > 0 {
        let earlier = commands_of_all(events.drop_last());
        lemma_events_keep_color(state, events.drop_last());
        match event_commands(events.last()) {
            Ok(commands) => {
                commands_can_be_split(state, earlier, commands);
                lemma_event_keeps_color(updated_by_all(state, earlier), events.last());
            },
            Err(_) => {
                assert(commands_of_all(events) =~= earlier);
            },
        }
    }
}

proof fn lemma_pads_keep_color(
    state: LampState,
    thresholds: Option<(u16, u16)>,
    touch: TouchState,
    values: Option<(u16, u16)>,
)
    requires
        state.color != black(),
    ensures
        updated_by_all(state, pad_commands(thresholds, touch, values)).color != black(),
{
    if let (Some(threshold), Some(value)) = (thresholds, values) {
        let first = mode_pad_commands(touch, value.0 < threshold.0);
        let between = after_mode_pad(touch, value.0 < threshold.0);
        let second = bright_pad_commands(between, value.1 < threshold.1);
        commands_can_be_split(state, first, second);
        default_color_is_not_black();
        if first.len() > 0 {
            lemma_one_command(state, first[0]);
        }
        if second.len() > 0 {
            lemma_color_commands_keep_color(updated_by_all(state, first), second[1]);
        }
    }
}

/// A lamp whose own color is not black keeps such a color through every tick, whatever the pads
/// do and whatever messages come in, as long as each message comes in whole. So every later
/// message with a color is shown.
pub proof fn own_color_is_never_black(
    lamp: LampState,
    thresholds: Option<(u16, u16)>,
    touch: TouchState,
    values: Option<(u16, u16)>,
    events: Seq<MqttEvent>,
)
    requires
        lamp.color != black(),
    ensures
        advanced(lamp, pad_commands(thresholds, touch, values) + commands_of_all(events)).color
            != black(),
{
    let own = pad_commands(thresholds, touch, values);
    lemma_pads_keep_color(lamp, thresholds, touch, values);
    lemma_events_keep_color(updated_by_all(lamp, own), events);
    commands_can_be_split(lamp, own, commands_of_all(events));
}

/// A color that is sent to the lamp while nobody touches it is on every LED after the next
/// round of the touch pads and the tick of the lamp.
pub proof fn sent_color_reaches_the_leds(
    topic: &str,
    data: &[u8],
    count: nat,
    red: u8,
    green: u8,
    blue: u8,
    lamp: LampState,
    thresholds: Option<(u16, u16)>,
    touch: TouchState,
    values: Option<(u16, u16)>,
    index: int,
)
    requires
        (topic@ == MQTT_TOPIC_RGB@ && data@ == triple_text(red, green, blue)) || (topic@
            == MQTT_TOPIC_HEX@ && data@ == hashes(count) + hex_text(red, green, blue)),
        (Rgb { r: red, g: green, b: blue }) != black(),
        lamp.color != black(),
        pad_commands(thresholds, touch, values) == Seq::<Command>::empty(),
        0 <= index < NUM_LEDS,
    ensures
        ({
            let commands = event_commands(MqttEvent::Received { topic: Some(topic), data })->Ok_0;
            let sent = pad_commands(thresholds, touch, values) + commands;
            led_color(advanced(lamp, sent), index) == (Rgb { r: red, g: green, b: blue })
        }),
{
    every_color_can_be_sent(topic, data, count, red, green, blue);
    let commands = event_commands(MqttEvent::Received { topic: Some(topic), data })->Ok_0;
    assert(pad_commands(thresholds, touch, values) + commands =~= commands);
    lemma_two_commands(lamp, Command::Mode(LampMode::Color), Command::Rgb(red, green, blue));
}

/// A lamp has a color for every LED, but for one place of the wheel in rainbow mode.
pub proof fn one_place_cannot_be_shown(state: LampState)
    ensures
        is_showable(state) <==> !(state.mode == LampMode::Rainbow && state.wheel_pos == u16::MAX),
        0 <= wheel_offset(state) <= NUM_LEDS,
        wheel_offset(state) == NUM_LEDS <==> state.wheel_pos == u16::MAX,
{
}

/// That place is never reached as long as the wheel stands at a multiple of four and turns
/// by multiples of four, as it does from the start.
pub proof fn wheel_in_fours_is_always_shown(state: LampState, commands: Seq<Command>)
    requires
        state.wheel_pos % 4 == 0,
        state.wheel_speed % 4 == 0,
        forall|i: int|
            0 <= i < commands.len() ==> (#[trigger] commands[i] matches Command::WheelSpeed(speed)
                ==> speed % 4 == 0),
    ensures
        is_showable(state),
        advanced(state, commands).wheel_pos % 4 == 0,
        advanced(state, commands).wheel_speed % 4 == 0,
        is_showable(advanced(state, commands)),
{
    lemma_speed_in_fours(state, commands);
    wheel_turns_once(state, commands);
}

proof fn lemma_speed_in_fours(state: LampState, commands: Seq<Command>)
    requires
        state.wheel_speed % 4 == 0,
        forall|i: int|
            0 <= i < commands.len() ==> (#[trigger] commands[i] matches Command::WheelSpeed(speed)
                ==> speed % 4 == 0),
    ensures
        updated_by_all(state, commands).wheel_speed % 4 == 0,
    decreases commands.len(),
{
    if commands.len() > 0 {
        let front = commands.drop_last();
        assert forall|i: int| 0 <= i < front.len() implies (
        #[trigger] front[i] matches Command::WheelSpeed(speed) ==> speed % 4 == 0) by {
            assert(front[i] == commands[i]);
        }
        lemma_speed_in_fours(state, front);
        assert(commands[commands.len() - 1] == commands.last());
    }
}

/// A lamp that is off is black all along; one that shows a color shows it all along; and
/// in rainbow mode the whole tube has the color that the first LED has in space mode.
pub proof fn plain_modes_show_one_color(state: LampState, index: int)
    requires
        0 <= index < NUM_LEDS,
        is_showable(state),
    ensures
        state.mode == LampMode::Off ==> led_color(state, index) == black(),
        state.mode == LampMode::Color ==> led_color(state, index) == state.color,
        state.mode == LampMode::Rainbow ==> led_color(state, index) == led_color(
            LampState { mode: LampMode::Space, ..state },
            0,
        ),
{
}

/// The LED that shows a place of the rainbow in space mode.
pub open spec fn led_of_place(state: LampState, place: int) -> int {
    (place + NUM_LEDS - wheel_offset(state)) % NUM_LEDS as int
}

/// In space mode every place of the rainbow is on exactly one LED.
pub proof fn space_is_a_turned_rainbow(state: LampState, place: int, index: int)
    requires
        0 <= place < NUM_LEDS,
        0 <= index < NUM_LEDS,
    ensures
        0 <= led_of_place(state, place) < NUM_LEDS,
        (index + wheel_offset(state)) % NUM_LEDS as int == place <==> index == led_of_place(
            state,
            place,
        ),
{
}

/// The progress bar is empty at the start, full at the end, and never gets shorter as
/// progress grows.
pub proof fn bar_grows_with_progress(state: LampState, further: LampState)
    requires
        state.progress <= further.progress,
    ensures
        0 <= bar_length(state) <= bar_length(further) <= NUM_LEDS,
        state.progress == 0 ==> bar_length(state) == 0,
        state.progress == 255 ==> bar_length(state) == NUM_LEDS,
{
}

/// The progress bar is green as far as it reaches and red behind, and the paler the lower its
/// saturation: the other two components make up what is missing.
pub proof fn bar_is_green_and_red(state: LampState, index: int)
    requires
        state.mode == LampMode::Progress,
        0 <= index < NUM_LEDS,
    ensures
        ({
            let pale = (255 - wave_saturation(state, index)) as u8;
            led_color(state, index) == if index < bar_length(state) {
                Rgb { r: pale, g: 255, b: pale }
            } else {
                Rgb { r: 255, g: pale, b: pale }
            }
        }),
{
    let sat = wave_saturation(state, index);
    wave_is_slight(state, index);
    assert(255 * (255 - sat) / 255 == 255 - sat);
    assert(sat * 255 / 255 == sat);
}

/// The modes that move show nothing but full brightness.
pub proof fn moving_modes_are_bright(state: LampState, index: int)
    requires
        0 <= index < NUM_LEDS,
        is_showable(state),
        state.mode != LampMode::Off,
        state.mode != LampMode::Color,
    ensures
        brightness(led_color(state, index)) == 255,
{
    let offset = wheel_offset(state);
    let place = (index + offset) % NUM_LEDS as int;
    one_place_cannot_be_shown(state);
    match state.mode {
        LampMode::Rainbow => rainbow_is_pure(offset),
        LampMode::Space => rainbow_is_pure(place),
        _ => value_is_the_strongest_component(
            bar_hue(state, index),
            wave_saturation(state, index) as u8,
            255,
        ),
    }
}

/// The wave along the progress bar takes no more than a sixth of the saturation, and none
/// at its crest, which lies where the wheel stands.
pub proof fn wave_is_slight(state: LampState, index: int)
    requires
        0 <= index < NUM_LEDS,
    ensures
        216 <= wave_saturation(state, index) <= 255,
        index == wheel_offset(state) % NUM_LEDS as int ==> wave_saturation(state, index) == 255,
{
}

/// Pads that are held, or that are left alone, do nothing the second time.
pub proof fn held_pads_are_silent(
    thresholds: Option<(u16, u16)>,
    state: TouchState,
    values: Option<(u16, u16)>,
)
    ensures
        pad_commands(thresholds, after_pads(thresholds, state, values), values) == Seq::<
            Command,
        >::empty(),
        after_pads(thresholds, after_pads(thresholds, state, values), values) == after_pads(
            thresholds,
            state,
            values,
        ),
{
    assert(pad_commands(thresholds, after_pads(thresholds, state, values), values) =~= Seq::<
        Command,
    >::empty());
}

/// A pad that was let go counts as touched again when it is touched again.
pub proof fn released_pads_work_again(
    threshold: (u16, u16),
    state: TouchState,
    released: (u16, u16),
    touched: (u16, u16),
)
    requires
        released.0 >= threshold.0,
        released.1 >= threshold.1,
        touched.0 < threshold.0,
        touched.1 < threshold.1,
    ensures
        ({
            let between = after_pads(Some(threshold), state, Some(released));
            &&& pad_commands(Some(threshold), state, Some(released)) == Seq::<Command>::empty()
            &&& between.current_lamp_mode == state.current_lamp_mode
            &&& between.current_warm_brightness == state.current_warm_brightness
            &&& pad_commands(Some(threshold), between, Some(touched)) == seq![
                Command::Mode(state.current_lamp_mode.successor()),
                Command::Mode(LampMode::Color),
                Command::Warm(next_brightness(state.current_warm_brightness)),
            ]
        }),
{
    let between = after_pads(Some(threshold), state, Some(released));
    assert(pad_commands(Some(threshold), state, Some(released)) =~= Seq::<Command>::empty());
    assert(pad_commands(Some(threshold), between, Some(touched)) =~= seq![
        Command::Mode(state.current_lamp_mode.successor()),
        Command::Mode(LampMode::Color),
        Command::Warm(next_brightness(state.current_warm_brightness)),
    ]);
}

/// What the pads read when they are set up does not count as a touch.
pub proof fn untouched_pads_are_silent(state: TouchState, mode_value: u16, bright_value: u16)
    ensures
        pad_commands(
            Some((threshold(mode_value), threshold(bright_value))),
            state,
            Some((mode_value, bright_value)),
        ) == Seq::<Command>::empty(),
{
    assert(pad_commands(
        Some((threshold(mode_value), threshold(bright_value))),
        state,
        Some((mode_value, bright_value)),
    ) =~= Seq::<Command>::empty());
}

/// A touch on the brightness pad makes the lamp brighter, until it is brightest, and then
/// dark. From dark it takes five touches to the brightest and one more back to dark.
pub proof fn brightness_goes_round(level: u8)
    ensures
        level < 255 ==> next_brightness(level) > level,
        next_brightness(255) == 0,
        next_brightness(next_brightness(next_brightness(next_brightness(next_brightness(0)))))
            == 255,
        level % 51 == 0 ==> next_brightness(level) % 51 == 0,
{
}

/// The touch side remembers the mode and the brightness that were last sent to the lamp,
/// whoever asked for them.
pub proof fn touch_side_notes_what_it_sends(
    thresholds: Option<(u16, u16)>,
    state: TouchState,
    values: Option<(u16, u16)>,
    received: Seq<Command>,
)
    ensures
        ({
            let after = noted_all(after_pads(thresholds, state, values), received);
            let told = noted_all(state, pad_commands(thresholds, state, values) + received);
            &&& after.current_lamp_mode == told.current_lamp_mode
            &&& after.current_warm_brightness == told.current_warm_brightness
        }),
    decreases received.len(),
{
    let own = pad_commands(thresholds, state, values);
    if received.len() == 0 {
        assert(own + received =~= own);
        lemma_pads_note_their_own(thresholds, state, values);
    } else {
        let all = own + received;
        assert(all.drop_last() =~= own + received.drop_last());
        assert(all.last() == received.last());
        touch_side_notes_what_it_sends(thresholds, state, values, received.drop_last());
    }
}

proof fn lemma_pads_note_their_own(
    thresholds: Option<(u16, u16)>,
    state: TouchState,
    values: Option<(u16, u16)>,
)
    ensures
        ({
            let after = after_pads(thresholds, state, values);
            let told = noted_all(state, pad_commands(thresholds, state, values));
            &&& after.current_lamp_mode == told.current_lamp_mode
            &&& after.current_warm_brightness == told.current_warm_brightness
        }),
{
    reveal_with_fuel(noted_all, 4);
}

/// Whether the lamp is in the mode that the touch side believes it to be in, or has gone
/// dark in color mode.
pub open spec fn in_step(lamp: LampState, touch: TouchState) -> bool {
    ||| lamp.mode == touch.current_lamp_mode
    ||| lamp.mode == LampMode::Off && touch.current_lamp_mode == LampMode::Color
}

/// The two sides stay in step when the lamp is told what the touch side has noted.
pub proof fn sides_stay_in_step(lamp: LampState, touch: TouchState, commands: Seq<Command>)
    requires
        in_step(lamp, touch),
    ensures
        in_step(updated_by_all(lamp, commands), noted_all(touch, commands)),
    decreases commands.len(),
{
    if commands.len() > 0 {
        sides_stay_in_step(lamp, touch, commands.drop_last());
    }
}

/// The two sides stay in step over a round of the touch pads and the tick of the lamp that
/// carries out what it sent.
pub proof fn rounds_stay_in_step(
    lamp: LampState,
    thresholds: Option<(u16, u16)>,
    touch: TouchState,
    values: Option<(u16, u16)>,
    received: Seq<Command>,
)
    requires
        in_step(lamp, touch),
    ensures
        in_step(
            advanced(lamp, pad_commands(thresholds, touch, values) + received),
            noted_all(after_pads(thresholds, touch, values), received),
        ),
{
    sides_stay_in_step(lamp, touch, pad_commands(thresholds, touch, values) + received);
    touch_side_notes_what_it_sends(thresholds, touch, values, received);
}

/// The calls that follow from one, itself included, if all succeed.
pub open spec fn calls_from(call: TouchPadCall, limit: nat) -> Seq<TouchPadCall>
    decreases limit,
{
    if limit == 0 {
        seq![call]
    } else {
        match call.successor() {
            Some(next) => seq![call] + calls_from(next, (limit - 1) as nat),
            None => seq![call],
        }
    }
}

/// Setting up the pads takes seven calls, of which the last two read them.
pub proof fn set_up_reads_last(limit: nat)
    requires
        limit >= 7,
    ensures
        calls_from(TouchPadCall::Init, limit) == seq![
            TouchPadCall::Init,
            TouchPadCall::SetVoltage,
            TouchPadCall::ConfigMode,
            TouchPadCall::ConfigBright,
            TouchPadCall::StartFilter,
        ] + calls_from(TouchPadCall::ReadMode, limit),
        calls_from(TouchPadCall::ReadMode, limit) == seq![
            TouchPadCall::ReadMode,
            TouchPadCall::ReadBright,
        ],
{
    reveal_with_fuel(calls_from, 8);
    assert(calls_from(TouchPadCall::ReadMode, limit) =~= seq![
        TouchPadCall::ReadMode,
        TouchPadCall::ReadBright,
    ]);
    assert(calls_from(TouchPadCall::Init, limit) =~= seq![
        TouchPadCall::Init,
        TouchPadCall::SetVoltage,
        TouchPadCall::ConfigMode,
        TouchPadCall::ConfigBright,
        TouchPadCall::StartFilter,
    ] + calls_from(TouchPadCall::ReadMode, limit));
}

/// When both pads have been read, the mode pad's value comes first and the brightness pad's
/// second, whatever was there before; and no other call changes them.
pub proof fn readings_keep_their_places(
    mode_value: u16,
    bright_value: u16,
    before: (u16, u16),
    call: TouchPadCall,
)
    ensures
        TouchPadCall::ReadBright.readings(
            bright_value,
            TouchPadCall::ReadMode.readings(mode_value, before),
        ) == (mode_value, bright_value),
        call != TouchPadCall::ReadMode && call != TouchPadCall::ReadBright ==> call.readings(
            mode_value,
            before,
        ) == before,
{
}

/// The stage of a session whose actions ended so, one after the other.
pub open spec fn stage_after_all(outcomes: Seq<bool>) -> Stage
    decreases outcomes.len(),
{
    if outcomes.len() == 0 {
        Stage::Subscribing(0)
    } else {
        stage_after(stage_after_all(outcomes.drop_last()), outcomes.last())
    }
}

/// The topics that a session has subscribed to, in order.
pub open spec fn subscribed(outcomes: Seq<bool>) -> Seq<Seq<char>>
    decreases outcomes.len(),
{
    if outcomes.len() == 0 {
        seq![]
    } else {
        let before = subscribed(outcomes.drop_last());
        match stage_after_all(outcomes.drop_last()) {
            Stage::Subscribing(index) => if outcomes.last() {
                before.push(topics()[index as int])
            } else {
                before
            },
            _ => before,
        }
    }
}

/// A session subscribes to the topics in order, each once, and looks after the touch pads
/// only when it has subscribed to all of them. Wherever it ends, it has not left one out on
/// the way.
pub proof fn all_topics_come_before_the_pads(outcomes: Seq<bool>)
    ensures
        match stage_after_all(outcomes) {
            Stage::Subscribing(index) => index < NUM_TOPICS && subscribed(outcomes)
                == topics().take(index as int),
            Stage::Retrying(index) => index < NUM_TOPICS && subscribed(outcomes) == topics().take(
                index as int,
            ),
            Stage::Ticking => subscribed(outcomes) == topics(),
            Stage::Pausing => subscribed(outcomes) == topics(),
            Stage::Failed => {
                let count = subscribed(outcomes).len() as int;
                count <= NUM_TOPICS && subscribed(outcomes) == topics().take(count)
            },
        },
    decreases outcomes.len(),
{
    if outcomes.len() == 0 {
        assert(subscribed(outcomes) =~= topics().take(0));
    } else {
        let earlier = outcomes.drop_last();
        all_topics_come_before_the_pads(earlier);
        assert(topics().take(NUM_TOPICS as int) =~= topics());
        if let Stage::Subscribing(index) = stage_after_all(earlier) {
            if outcomes.last() {
                assert(subscribed(outcomes) =~= topics().take(index + 1));
            }
        }
    }
}

/// Once a session looks after the touch pads, it does nothing else, for as long as the clock
/// does not fail.
pub proof fn pads_are_looked_after_from_then_on(stage: Stage, success: bool)
    requires
        stage == Stage::Ticking || stage == Stage::Pausing,
    ensures
        stage == Stage::Ticking ==> stage_after(stage, success) == Stage::Pausing,
        stage == Stage::Pausing && success ==> stage_after(stage, success) == Stage::Ticking,
        stage == Stage::Pausing && !success ==> stage_after(stage, success) == Stage::Failed,
{
}

} // verus!
