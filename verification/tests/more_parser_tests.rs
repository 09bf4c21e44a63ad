use aap::parser::is_known_unhandled_command;
use aap::parser::is_known_unhandled_control;
use aap::parser::parse;
use aap::parser::parse_audio_source;
use aap::parser::parse_battery;
use aap::parser::parse_ca_activity;
use aap::parser::parse_control;
use aap::parser::parse_device_info;
use aap::parser::parse_ear_detection;
use aap::parser::AapEvent;
use aap::parser::AudioSource;
use aap::parser::CaActivity;
use aap::parser::DeviceInfoUpdate;
use aap::parser::ParseError;
use aap::protocol::AncMode;
use aap::protocol::EarStatus;

#[test]
fn short_packets_are_too_short() {
    assert_eq!(parse(&[]).unwrap_err(), ParseError::TooShort(0));
    assert_eq!(parse(&[0x04, 0x00, 0x04]).unwrap_err(), ParseError::TooShort(3));
    // Four or five bytes that are neither sentinel nor handshake.
    assert_eq!(parse(&[0x04, 0x00, 0x04, 0x00]).unwrap_err(), ParseError::TooShort(4));
    assert_eq!(parse(&[0x04, 0x00, 0x04, 0x00, 0x04]).unwrap_err(), ParseError::TooShort(5));
}

#[test]
fn disconnect_sentinel_must_be_exact() {
    // With a trailing byte it is no sentinel, and not a control packet either.
    assert_eq!(parse(&[0x00, 0x01, 0x00, 0x00, 0x00]).unwrap_err(), ParseError::TooShort(5));
    assert_eq!(
        parse(&[0x00, 0x01, 0x00, 0x00, 0x00, 0x00]).unwrap_err(),
        ParseError::UnknownCommand(0x00)
    );
}

#[test]
fn handshake_prefix_of_four_bytes() {
    assert!(matches!(parse(&[0x01, 0x00, 0x04, 0x00]).unwrap(), AapEvent::HandshakeAck));
}

#[test]
fn foreign_frame_names_first_byte() {
    assert_eq!(
        parse(&[0x05, 0x00, 0x04, 0x00, 0x04, 0x00]).unwrap_err(),
        ParseError::UnknownCommand(0x05)
    );
}

#[test]
fn features_ack() {
    assert!(matches!(
        parse(&[0x04, 0x00, 0x04, 0x00, 0x2B, 0x00]).unwrap(),
        AapEvent::FeaturesAck
    ));
}

#[test]
fn unknown_command_is_named() {
    let data = [0x04, 0x00, 0x04, 0x00, 0x99, 0x00, 0x01];
    assert_eq!(parse(&data).unwrap_err(), ParseError::UnknownCommand(0x99));
    let data = [0x04, 0x00, 0x04, 0x00, 0x19, 0x00];
    assert_eq!(parse(&data).unwrap_err(), ParseError::UnknownCommand(0x19));
}

#[test]
fn headphone_battery() {
    for level in [0u8, 73, 100] {
        for (status, charging, connected) in
            [(0x01u8, true, true), (0x02, false, true), (0x04, false, false)]
        {
            let packet = [
                0x04, 0x00, 0x04, 0x00, 0x04, 0x00, // battery notification
                0x01, // one battery
                0x01, 0x01, level, status, 0x01, // headphones component
            ];
            let AapEvent::Battery(battery) = parse(&packet).unwrap() else {
                panic!("expected battery notification");
            };
            for entry in [battery.left, battery.right] {
                let entry = entry.expect("headphone battery must be exposed to clients");
                assert_eq!(entry.level, level);
                assert_eq!(entry.charging, charging);
                assert_eq!(entry.connected, connected);
            }
            assert!(battery.case.is_none(), "AirPods Max has no case battery");
            for length in 6..packet.len() {
                assert!(parse(&packet[..length]).is_err());
            }
        }
    }
}

#[test]
fn battery_errors_report_lengths() {
    assert_eq!(parse_battery(&[]).unwrap_err(), ParseError::TooShort(0));
    // Count 2 needs ten entry bytes; four are there.
    assert_eq!(
        parse_battery(&[0x02, 0x02, 0x01, 0x10, 0x01]).unwrap_err(),
        ParseError::TooShort(4)
    );
}

#[test]
fn battery_later_entries_win_and_unknown_components_are_ignored() {
    let payload = [
        0x03, // count
        0x02, 0x01, 0x10, 0x01, 0x01, // Right 16% charging
        0x20, 0x01, 0x55, 0x01, 0x01, // unknown component
        0x02, 0x01, 0x20, 0x00, 0x01, // Right 32% status unknown
    ];
    let AapEvent::Battery(b) = parse_battery(&payload).unwrap() else {
        panic!("expected battery");
    };
    assert!(b.left.is_none());
    assert!(b.case.is_none());
    let right = b.right.unwrap();
    assert_eq!(right.level, 0x20);
    assert!(!right.charging);
    assert!(right.connected);
}

#[test]
fn battery_zero_entries() {
    let AapEvent::Battery(b) = parse_battery(&[0x00]).unwrap() else {
        panic!("expected battery");
    };
    assert!(b.left.is_none() && b.right.is_none() && b.case.is_none());
}

#[test]
fn ear_detection_errors() {
    assert_eq!(parse_ear_detection(&[0x00]).unwrap_err(), ParseError::TooShort(1));
    assert_eq!(parse_ear_detection(&[0x03, 0x00]).unwrap_err(), ParseError::InvalidData);
    assert_eq!(parse_ear_detection(&[0x00, 0x07]).unwrap_err(), ParseError::InvalidData);
    let AapEvent::EarDetection(ed) = parse_ear_detection(&[0x02, 0x01]).unwrap() else {
        panic!("expected ear detection");
    };
    assert_eq!(ed.primary, EarStatus::InCase);
    assert_eq!(ed.secondary, EarStatus::OutOfEar);
}

#[test]
fn control_errors() {
    assert_eq!(parse_control(&[0x0D]).unwrap_err(), ParseError::TooShort(1));
    assert_eq!(parse_control(&[0x0D, 0x05]).unwrap_err(), ParseError::InvalidData);
    assert_eq!(parse_control(&[0x0D, 0x00]).unwrap_err(), ParseError::InvalidData);
    assert_eq!(parse_control(&[0x77, 0x01]).unwrap_err(), ParseError::UnknownCommand(0x77));
    assert_eq!(parse_control(&[0x17, 0x01]).unwrap_err(), ParseError::UnknownCommand(0x17));
    assert!(matches!(
        parse_control(&[0x0D, 0x04]).unwrap(),
        AapEvent::AncMode(AncMode::Adaptive)
    ));
    // Any value other than 0x01 reads as disabled.
    assert!(matches!(
        parse_control(&[0x28, 0x00]).unwrap(),
        AapEvent::ConversationalAwareness(false)
    ));
}

#[test]
fn audio_source_unknown_byte() {
    assert_eq!(parse_audio_source(&[]).unwrap_err(), ParseError::TooShort(0));
    assert!(matches!(
        parse_audio_source(&[0x07]).unwrap(),
        AapEvent::AudioSource(AudioSource::Unknown(0x07))
    ));
}

#[test]
fn ca_activity_levels() {
    assert_eq!(parse_ca_activity(&[0x02, 0x00, 0x01]).unwrap_err(), ParseError::TooShort(3));
    let expect = [
        (0x00u8, CaActivity::Normal),
        (0x01, CaActivity::Speaking),
        (0x02, CaActivity::Speaking),
        (0x03, CaActivity::Stopped),
        (0x04, CaActivity::Normal),
        (0xFF, CaActivity::Normal),
    ];
    for (level, activity) in expect {
        let data = [0x04, 0x00, 0x04, 0x00, 0x4B, 0x00, 0x02, 0x00, 0x01, level];
        let AapEvent::ConversationalActivity(a) = parse(&data).unwrap() else {
            panic!("expected activity");
        };
        assert_eq!(a, activity);
    }
}

fn device_info_packet(strings: &[u8]) -> Vec<u8> {
    let mut p = vec![0x04, 0x00, 0x04, 0x00, 0x1D, 0x00, 0x00, 0x00, 0x00, 0x00, 0x00];
    p.extend_from_slice(strings);
    p
}

#[test]
fn device_info_strings() {
    let p = device_info_packet(b"AirPods Pro\0A2084\0Apple Inc.\0\0GX1234\x006.1.2\0extra\0");
    let AapEvent::DeviceInfo(info) = parse(&p).unwrap() else {
        panic!("expected device info");
    };
    assert_eq!(info.name, "AirPods Pro");
    assert_eq!(info.model, "A2084");
    assert_eq!(info.manufacturer, "Apple Inc.");
    // The empty piece between two zeros is skipped.
    assert_eq!(info.serial, "GX1234");
    assert_eq!(info.firmware, "6.1.2");
}

#[test]
fn device_info_missing_fields_are_empty() {
    let p = device_info_packet(b"\0\0Name\0");
    let AapEvent::DeviceInfo(info) = parse_device_info(&p).unwrap() else {
        panic!("expected device info");
    };
    assert_eq!(info.name, "Name");
    assert_eq!(info.model, "");
    assert_eq!(info.firmware, "");
}

#[test]
fn device_info_invalid_utf8_is_replaced() {
    let p = device_info_packet(&[0x41, 0xFF, 0x42, 0x00]);
    let AapEvent::DeviceInfo(info) = parse_device_info(&p).unwrap() else {
        panic!("expected device info");
    };
    assert_eq!(info.name, "A\u{FFFD}B");
}

#[test]
fn device_info_too_short() {
    let p = [0x04, 0x00, 0x04, 0x00, 0x1D, 0x00, 0x00, 0x00, 0x00, 0x00, 0x00];
    assert_eq!(parse(&p).unwrap_err(), ParseError::TooShort(11));
}

#[test]
fn device_info_from_texts() {
    let texts = vec!["a".to_string(), "b".to_string()];
    let info = DeviceInfoUpdate::from_texts(&texts);
    assert_eq!(info.name, "a");
    assert_eq!(info.model, "b");
    assert_eq!(info.manufacturer, "");
    assert_eq!(info.serial, "");
    assert_eq!(info.firmware, "");
}

#[test]
fn known_unhandled_classification() {
    for cmd in [0x02u8, 0x08, 0x0C, 0x10, 0x11, 0x12, 0x14, 0x19, 0x2E, 0x4E, 0x52, 0x53, 0x55] {
        assert!(is_known_unhandled_command(cmd));
        let data = [0x04, 0x00, 0x04, 0x00, cmd, 0x00, 0x00, 0x00];
        assert_eq!(parse(&data).unwrap_err(), ParseError::UnknownCommand(cmd));
    }
    for cmd in [0x04u8, 0x09, 0x2B, 0x99] {
        assert!(!is_known_unhandled_command(cmd));
    }
    for sub in [0x17u8, 0x18, 0x23, 0x24, 0x29, 0x2C, 0x2F, 0x33, 0x35, 0x3E] {
        assert!(is_known_unhandled_control(sub));
        let data = [0x04, 0x00, 0x04, 0x00, 0x09, 0x00, sub, 0x00];
        assert_eq!(parse(&data).unwrap_err(), ParseError::UnknownCommand(sub));
    }
    for sub in [0x0Du8, 0x28, 0x01, 0x3F] {
        assert!(!is_known_unhandled_control(sub));
    }
}
