//! The messages that steer the lamp, and the commands that they stand for.

use std::str::FromStr;
use vstd::prelude::*;
use vstd::slice::slice_subrange;
use vstd::utf8::decode_utf8;
use vstd::utf8::is_continuation_byte;
use vstd::utf8::valid_utf8;

use crate::command::Command;
use crate::mode::lowercase;
use crate::mode::mode_named;
use crate::mode::LampMode;
use crate::text::byte_triple;
use crate::text::hex_triple;
use crate::text::parse_byte_triple;
use crate::text::parse_hex_triple;
use crate::text::parse_u16;
use crate::text::parse_u8;
use crate::text::same_text;
use crate::text::trim_start;
use crate::text::trimmed_start;
use crate::text::u16_value;
use crate::text::u8_value;
use crate::text::HASH;

verus! {

/// Names a mode.
pub const MQTT_TOPIC_MODE: &'static str = "lamps/tube/mode";

/// Gives a color as red, green and blue.
pub const MQTT_TOPIC_RGB: &'static str = "lamps/tube/rgb";

/// Gives a color as hue, saturation and value.
pub const MQTT_TOPIC_HSV: &'static str = "lamps/tube/hsv";

/// Gives a color in hexadecimal.
pub const MQTT_TOPIC_HEX: &'static str = "lamps/tube/hex";

/// Gives the brightness of a warm light.
pub const MQTT_TOPIC_WARM: &'static str = "lamps/tube/warm";

/// Tells how far something has come.
pub const MQTT_TOPIC_PROGRESS: &'static str = "lamps/tube/progress";

/// Tells how fast the color wheel turns.
pub const MQTT_TOPIC_WHEEL_SPEED: &'static str = "lamps/tube/wheel_speed";

/// What the connection to the broker reports.
#[derive(Debug, Clone, Copy)]
pub enum MqttEvent<'a> {
    /// A message came in.
    Received { topic: Option<&'a str>, data: &'a [u8] },
    /// Anything else, which does not steer the lamp.
    Other,
}

/// Why a message stands for no command.
#[derive(Debug, Clone, Copy, PartialEq, Eq, Structural)]
pub enum MessageError {
    /// The message is not UTF-8.
    NotUtf8,
    /// The message names no mode.
    Mode,
    /// The message does not start with three bytes for red, green and blue.
    Rgb,
    /// The message does not start with three bytes for hue, saturation and value.
    Hsv,
    /// The message is no color in hexadecimal.
    Hex,
    /// The message is no brightness.
    Warm,
    /// The message is no progress.
    Progress,
    /// The message is no wheel speed.
    WheelSpeed,
    /// The lamp does not listen to the topic.
    UnexpectedTopic,
    /// The message has no topic.
    NoTopic,
}

/// The commands that set a color: first comes the mode that shows it.
pub open spec fn color_commands(command: Option<Command>, error: MessageError) -> Result<
    Seq<Command>,
    MessageError,
> {
    match command {
        Some(command) => Ok(seq![Command::Mode(LampMode::Color), command]),
        None => Err(error),
    }
}

/// The one command of a message that sets no color.
pub open spec fn single_command(command: Option<Command>, error: MessageError) -> Result<
    Seq<Command>,
    MessageError,
> {
    match command {
        Some(command) => Ok(seq![command]),
        None => Err(error),
    }
}

/// The command of a message with the name of a mode.
pub open spec fn mode_command(data: Seq<u8>) -> Option<Command> {
    match mode_named(lowercase(decode_utf8(data))) {
        Ok(mode) => Some(Command::Mode(mode)),
        Err(_) => None,
    }
}

/// The color command of a message with red, green and blue.
pub open spec fn rgb_command(data: Seq<u8>) -> Option<Command> {
    match byte_triple(data) {
        Some((red, green, blue)) => Some(Command::Rgb(red, green, blue)),
        None => None,
    }
}

/// The color command of a message with hue, saturation and value.
pub open spec fn hsv_command(data: Seq<u8>) -> Option<Command> {
    match byte_triple(data) {
        Some((hue, sat, val)) => Some(Command::Hsv(hue, sat, val)),
        None => None,
    }
}

/// The color command of a message in hexadecimal.
pub open spec fn hex_command(data: Seq<u8>) -> Option<Command> {
    match hex_triple(data) {
        Some((red, green, blue)) => Some(Command::Rgb(red, green, blue)),
        None => None,
    }
}

/// The color command of a message with a brightness.
pub open spec fn warm_command(data: Seq<u8>) -> Option<Command> {
    match u8_value(data, 10) {
        Some(level) => Some(Command::Warm(level)),
        None => None,
    }
}

/// The command of a message with a progress.
pub open spec fn progress_command(data: Seq<u8>) -> Option<Command> {
    match u8_value(data, 10) {
        Some(progress) => Some(Command::Progress(progress)),
        None => None,
    }
}

/// The command of a message with a wheel speed.
pub open spec fn wheel_speed_command(data: Seq<u8>) -> Option<Command> {
    match u16_value(data) {
        Some(speed) => Some(Command::WheelSpeed(speed)),
        None => None,
    }
}

/// The commands that a message on a topic stands for.
pub open spec fn topic_commands(topic: Seq<char>, data: Seq<u8>) -> Result<
    Seq<Command>,
    MessageError,
> {
    if topic == MQTT_TOPIC_MODE@ {
        single_command(mode_command(data), MessageError::Mode)
    } else if topic == MQTT_TOPIC_RGB@ {
        color_commands(rgb_command(data), MessageError::Rgb)
    } else if topic == MQTT_TOPIC_HSV@ {
        color_commands(hsv_command(data), MessageError::Hsv)
    } else if topic == MQTT_TOPIC_HEX@ {
        color_commands(hex_command(data), MessageError::Hex)
    } else if topic == MQTT_TOPIC_WARM@ {
        color_commands(warm_command(data), MessageError::Warm)
    } else if topic == MQTT_TOPIC_PROGRESS@ {
        single_command(progress_command(data), MessageError::Progress)
    } else if topic == MQTT_TOPIC_WHEEL_SPEED@ {
        single_command(wheel_speed_command(data), MessageError::WheelSpeed)
    } else {
        Err(MessageError::UnexpectedTopic)
    }
}

/// The commands that an event stands for.
pub open spec fn event_commands(event: MqttEvent) -> Result<Seq<Command>, MessageError> {
    match event {
        MqttEvent::Received { topic, data } => if !valid_utf8(data@) {
            Err(MessageError::NotUtf8)
        } else {
            match topic {
                Some(topic) => topic_commands(topic@, data@),
                None => Err(MessageError::NoTopic),
            }
        },
        MqttEvent::Other => Ok(seq![]),
    }
}

/// Whether the pairs that a hexadecimal color is cut into are whole characters. A pair
/// is cut off only where the pairs before it were digits.
pub open spec fn pairs_are_whole(data: Seq<u8>) -> bool {
    let hex = trimmed_start(data, HASH);
    hex.len() == 6 ==> {
        &&& !is_continuation_byte(hex[2])
        &&& u8_value(hex.subrange(0, 2), 16) is Some ==> !is_continuation_byte(hex[4])
    }
}

/// Whether an event can be handled: a message in hexadecimal must not have a character
/// that lies across two pairs.
pub open spec fn is_manageable(event: MqttEvent) -> bool {
    match event {
        MqttEvent::Received { topic: Some(topic), data } => valid_utf8(data@) && topic@
            == MQTT_TOPIC_HEX@ ==> pairs_are_whole(data@),
        _ => true,
    }
}

/// Calls `std::str::from_utf8`. The contract says that there is a text if and only if
/// the bytes are UTF-8, and that it is then the text that they encode.
#[verifier::external_body]
fn from_utf8(data: &[u8]) -> (text: Option<&str>)
    ensures
        text is Some <==> valid_utf8(data@),
        text matches Some(text) ==> text@ == decode_utf8(data@),
{
    std::str::from_utf8(data).ok()
}

fn color_message(command: Option<Command>, error: MessageError) -> (commands: Result<
    Vec<Command>,
    MessageError,
>)
    ensures
        match commands {
            Ok(commands) => color_commands(command, error) == Ok::<Seq<Command>, MessageError>(
                commands@,
            ),
            Err(e) => color_commands(command, error) == Err::<Seq<Command>, MessageError>(e),
        },
{
    match command {
        Some(command) => {
            let mut commands: Vec<Command> = Vec::new();
            commands.push(Command::Mode(LampMode::Color));
            commands.push(command);
            assert(commands@ =~= seq![Command::Mode(LampMode::Color), command]);
            Ok(commands)
        },
        None => Err(error),
    }
}

fn single_message(command: Option<Command>, error: MessageError) -> (commands: Result<
    Vec<Command>,
    MessageError,
>)
    ensures
        match commands {
            Ok(commands) => single_command(command, error) == Ok::<Seq<Command>, MessageError>(
                commands@,
            ),
            Err(e) => single_command(command, error) == Err::<Seq<Command>, MessageError>(e),
        },
{
    match command {
        Some(command) => {
            let mut commands: Vec<Command> = Vec::new();
            commands.push(command);
            assert(commands@ =~= seq![command]);
            Ok(commands)
        },
        None => Err(error),
    }
}

fn handle_message(topic: &str, text: &str, data: &[u8]) -> (commands: Result<
    Vec<Command>,
    MessageError,
>)
    requires
        text@ == decode_utf8(data@),
    ensures
        match commands {
            Ok(commands) => topic_commands(topic@, data@) == Ok::<Seq<Command>, MessageError>(
                commands@,
            ),
            Err(e) => topic_commands(topic@, data@) == Err::<Seq<Command>, MessageError>(e),
        },
{
    if same_text(topic, MQTT_TOPIC_MODE) {
        let command = match LampMode::from_str(text) {
            Ok(mode) => Some(Command::Mode(mode)),
            Err(_) => None,
        };
        single_message(command, MessageError::Mode)
    } else if same_text(topic, MQTT_TOPIC_RGB) {
        let command = match parse_byte_triple(data) {
            Some((red, green, blue)) => Some(Command::Rgb(red, green, blue)),
            None => None,
        };
        color_message(command, MessageError::Rgb)
    } else if same_text(topic, MQTT_TOPIC_HSV) {
        let command = match parse_byte_triple(data) {
            Some((hue, sat, val)) => Some(Command::Hsv(hue, sat, val)),
            None => None,
        };
        color_message(command, MessageError::Hsv)
    } else if same_text(topic, MQTT_TOPIC_HEX) {
        let command = match parse_hex_triple(data) {
            Some((red, green, blue)) => Some(Command::Rgb(red, green, blue)),
            None => None,
        };
        color_message(command, MessageError::Hex)
    } else if same_text(topic, MQTT_TOPIC_WARM) {
        let command = match parse_u8(data, 10) {
            Some(level) => Some(Command::Warm(level)),
            None => None,
        };
        color_message(command, MessageError::Warm)
    } else if same_text(topic, MQTT_TOPIC_PROGRESS) {
        let command = match parse_u8(data, 10) {
            Some(progress) => Some(Command::Progress(progress)),
            None => None,
        };
        single_message(command, MessageError::Progress)
    } else if same_text(topic, MQTT_TOPIC_WHEEL_SPEED) {
        let command = match parse_u16(data) {
            Some(speed) => Some(Command::WheelSpeed(speed)),
            None => None,
        };
        single_message(command, MessageError::WheelSpeed)
    } else {
        Err(MessageError::UnexpectedTopic)
    }
}

/// Whether `handle_mqtt_event` can be called on an event.
pub fn can_handle(event: &MqttEvent<'_>) -> (manageable: bool)
    ensures
        manageable == is_manageable(*event),
{
    match event {
        MqttEvent::Received { topic: Some(topic), data } => {
            if from_utf8(data).is_none() || !same_text(topic, MQTT_TOPIC_HEX) {
                return true;
            }
            let hex = trim_start(data, HASH);
            if hex.len() != 6 {
                return true;
            }
            if 0x80 <= hex[2] && hex[2] <= 0xbf {
                return false;
            }
            parse_u8(slice_subrange(hex, 0, 2), 16).is_none() || !(0x80 <= hex[4] && hex[4] <= 0xbf)
        },
        _ => true,
    }
}

/// The commands that an event stands for, in the order in which they are to be sent. A
/// message in hexadecimal that would have to be cut within a character is not to be handed
/// in: `can_handle` tells.
pub fn handle_mqtt_event(event: &MqttEvent<'_>) -> (commands: Result<Vec<Command>, MessageError>)
    requires
        is_manageable(*event),
    ensures
        match commands {
            Ok(commands) => event_commands(*event) == Ok::<Seq<Command>, MessageError>(commands@),
            Err(e) => event_commands(*event) == Err::<Seq<Command>, MessageError>(e),
        },
{
    match event {
        MqttEvent::Received { topic, data } => match from_utf8(data) {
            Some(text) => match topic {
                Some(topic) => handle_message(topic, text, data),
                None => Err(MessageError::NoTopic),
            },
            None => Err(MessageError::NotUtf8),
        },
        MqttEvent::Other => Ok(Vec::new()),
    }
}

} // verus!
