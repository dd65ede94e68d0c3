//! What messages stand for.

use std::str::FromStr;
use tube_lamp::command::Command;
use tube_lamp::message::can_handle;
use tube_lamp::message::handle_mqtt_event;
use tube_lamp::message::MessageError;
use tube_lamp::message::MqttEvent;
use tube_lamp::message::MQTT_TOPIC_HEX;
use tube_lamp::message::MQTT_TOPIC_HSV;
use tube_lamp::message::MQTT_TOPIC_MODE;
use tube_lamp::message::MQTT_TOPIC_PROGRESS;
use tube_lamp::message::MQTT_TOPIC_RGB;
use tube_lamp::message::MQTT_TOPIC_WARM;
use tube_lamp::message::MQTT_TOPIC_WHEEL_SPEED;
use tube_lamp::mode::LampMode;

fn handle(topic: Option<&str>, data: &[u8]) -> Result<Vec<Command>, MessageError> {
    let event = MqttEvent::Received { topic, data };
    assert!(can_handle(&event));
    handle_mqtt_event(&event)
}

#[test]
fn topics_have_their_names() {
    assert_eq!(MQTT_TOPIC_MODE, "lamps/tube/mode");
    assert_eq!(MQTT_TOPIC_RGB, "lamps/tube/rgb");
    assert_eq!(MQTT_TOPIC_HSV, "lamps/tube/hsv");
    assert_eq!(MQTT_TOPIC_HEX, "lamps/tube/hex");
    assert_eq!(MQTT_TOPIC_WARM, "lamps/tube/warm");
    assert_eq!(MQTT_TOPIC_PROGRESS, "lamps/tube/progress");
    assert_eq!(MQTT_TOPIC_WHEEL_SPEED, "lamps/tube/wheel_speed");
}

#[test]
fn modes_are_named_in_any_case() {
    let names = [
        ("off", LampMode::Off),
        ("COLOR", LampMode::Color),
        ("Rainbow", LampMode::Rainbow),
        ("sPaCe", LampMode::Space),
        ("progress", LampMode::Progress),
    ];
    for (name, mode) in names {
        assert_eq!(LampMode::from_str(name), Ok(mode));
        assert_eq!(name.parse::<LampMode>(), Ok(mode));
        assert_eq!(handle(Some("lamps/tube/mode"), name.as_bytes()), Ok(vec![Command::Mode(mode)]));
    }
}

#[test]
fn other_names_are_no_modes() {
    for name in ["", "offf", "of", " off", "off ", "colour", "\u{ff2f}ff", "SPÄCE"] {
        assert_eq!(LampMode::from_str(name), Err(()));
        assert_eq!(handle(Some("lamps/tube/mode"), name.as_bytes()), Err(MessageError::Mode));
    }
}

#[test]
fn lower_case_names_are_taken_as_they_are() {
    assert_eq!(LampMode::from_lowercase("space"), Ok(LampMode::Space));
    assert_eq!(LampMode::from_lowercase("Space"), Err(()));
}

#[test]
fn colors_come_behind_their_mode() {
    assert_eq!(
        handle(Some(MQTT_TOPIC_RGB), b"1,2,3"),
        Ok(vec![Command::Mode(LampMode::Color), Command::Rgb(1, 2, 3)])
    );
    assert_eq!(
        handle(Some(MQTT_TOPIC_HSV), b"10,230,51,9"),
        Ok(vec![Command::Mode(LampMode::Color), Command::Hsv(10, 230, 51)])
    );
    assert_eq!(
        handle(Some(MQTT_TOPIC_HEX), b"#010203"),
        Ok(vec![Command::Mode(LampMode::Color), Command::Rgb(1, 2, 3)])
    );
    assert_eq!(
        handle(Some(MQTT_TOPIC_WARM), b"200"),
        Ok(vec![Command::Mode(LampMode::Color), Command::Warm(200)])
    );
}

#[test]
fn progress_and_speed_come_alone() {
    assert_eq!(handle(Some(MQTT_TOPIC_PROGRESS), b"128"), Ok(vec![Command::Progress(128)]));
    assert_eq!(handle(Some(MQTT_TOPIC_WHEEL_SPEED), b"65535"), Ok(vec![Command::WheelSpeed(65535)]));
}

#[test]
fn decimal_and_hexadecimal_ask_for_the_same() {
    for (red, green, blue) in [(0u8, 0u8, 0u8), (255, 128, 1), (9, 10, 99), (100, 200, 16)] {
        let decimal = format!("{},{},{}", red, green, blue);
        let hex = format!("{:02x}{:02x}{:02x}", red, green, blue);
        let commands = handle(Some(MQTT_TOPIC_RGB), decimal.as_bytes());
        assert_eq!(
            commands,
            Ok(vec![Command::Mode(LampMode::Color), Command::Rgb(red, green, blue)])
        );
        for hashes in ["", "#", "####"] {
            let text = format!("{}{}", hashes, hex);
            assert_eq!(handle(Some(MQTT_TOPIC_HEX), text.as_bytes()), commands);
        }
    }
}

#[test]
fn each_topic_refuses_what_it_cannot_read() {
    assert_eq!(handle(Some(MQTT_TOPIC_RGB), b"1,2"), Err(MessageError::Rgb));
    assert_eq!(handle(Some(MQTT_TOPIC_HSV), b"1,2,x"), Err(MessageError::Hsv));
    assert_eq!(handle(Some(MQTT_TOPIC_HEX), b"#fff"), Err(MessageError::Hex));
    assert_eq!(handle(Some(MQTT_TOPIC_WARM), b"256"), Err(MessageError::Warm));
    assert_eq!(handle(Some(MQTT_TOPIC_PROGRESS), b"-1"), Err(MessageError::Progress));
    assert_eq!(handle(Some(MQTT_TOPIC_WHEEL_SPEED), b"65536"), Err(MessageError::WheelSpeed));
}

#[test]
fn strange_messages_stand_for_nothing() {
    assert_eq!(handle(Some("lamps/tube"), b"off"), Err(MessageError::UnexpectedTopic));
    assert_eq!(handle(None, b"off"), Err(MessageError::NoTopic));
    assert_eq!(handle(Some(MQTT_TOPIC_MODE), b"off\xff"), Err(MessageError::NotUtf8));
    assert_eq!(handle(Some("elsewhere"), b"\xc3"), Err(MessageError::NotUtf8));
    assert_eq!(handle(None, b"\xed\xa0\x80"), Err(MessageError::NotUtf8));
    assert_eq!(handle_mqtt_event(&MqttEvent::Other), Ok(vec![]));
    assert!(can_handle(&MqttEvent::Other));
}

#[test]
fn characters_must_not_lie_across_pairs() {
    let manageable = |topic: &str, text: &str| {
        can_handle(&MqttEvent::Received { topic: Some(topic), data: text.as_bytes() })
    };
    // the second byte of a letter opens the second pair
    assert!(!manageable(MQTT_TOPIC_HEX, "aéaaa"));
    assert!(!manageable(MQTT_TOPIC_HEX, "##aéaaa"));
    // or the third, which is looked at only behind two digits
    assert!(!manageable(MQTT_TOPIC_HEX, "aaaéa"));
    assert!(!manageable(MQTT_TOPIC_HEX, "+aaéa"));
    assert!(manageable(MQTT_TOPIC_HEX, "xxaéa"));
    assert_eq!(handle(Some(MQTT_TOPIC_HEX), "xxaéa".as_bytes()), Err(MessageError::Hex));
    // whole letters, other lengths and other topics do no harm
    assert!(manageable(MQTT_TOPIC_HEX, "éaaaa"));
    assert!(manageable(MQTT_TOPIC_HEX, "aaéaa"));
    assert!(manageable(MQTT_TOPIC_HEX, "aaaaé"));
    assert!(manageable(MQTT_TOPIC_HEX, "aéaa"));
    assert!(manageable(MQTT_TOPIC_RGB, "aéaaa"));
    assert!(can_handle(&MqttEvent::Received { topic: None, data: "aéaaa".as_bytes() }));
}

#[test]
fn modes_follow_each_other() {
    assert_eq!(LampMode::Off.next(), LampMode::Color);
    assert_eq!(LampMode::Color.next(), LampMode::Rainbow);
    assert_eq!(LampMode::Rainbow.next(), LampMode::Space);
    assert_eq!(LampMode::Space.next(), LampMode::Off);
    assert_eq!(LampMode::Progress.next(), LampMode::Off);
}
