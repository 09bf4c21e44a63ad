use aap::parser::parse;
use aap::parser::AapEvent;
use aap::parser::AudioSource;

#[test]
fn test_parse_disconnect() {
    let data = [0x00, 0x01, 0x00, 0x00];
    let event = parse(&data).unwrap();
    assert!(matches!(event, AapEvent::Disconnected));
}

#[test]
fn test_parse_handshake_ack() {
    let data = [0x01, 0x00, 0x04, 0x00, 0x02, 0x00];
    let event = parse(&data).unwrap();
    assert!(matches!(event, AapEvent::HandshakeAck));
}

#[test]
fn test_parse_battery() {
    // Right=100% discharging, Left=99% charging, Case=17% discharging
    let data = [
        0x04, 0x00, 0x04, 0x00, 0x04, 0x00, // header
        0x03, // count=3
        0x02, 0x01, 0x64, 0x02, 0x01, // Right, 100%, discharging
        0x04, 0x01, 0x63, 0x01, 0x01, // Left, 99%, charging
        0x08, 0x01, 0x11, 0x02, 0x01, // Case, 17%, discharging
    ];
    let event = parse(&data).unwrap();
    if let AapEvent::Battery(b) = event {
        let left = b.left.unwrap();
        assert_eq!(left.level, 99);
        assert!(left.charging);

        let right = b.right.unwrap();
        assert_eq!(right.level, 100);
        assert!(!right.charging);

        let case = b.case.unwrap();
        assert_eq!(case.level, 17);
        assert!(!case.charging);
    } else {
        panic!("expected Battery event");
    }
}

#[test]
fn test_parse_anc_mode() {
    for (mode_byte, expected_str) in [
        (0x01, "off"),
        (0x02, "noise"),
        (0x03, "transparency"),
        (0x04, "adaptive"),
    ] {
        let data = [0x04, 0x00, 0x04, 0x00, 0x09, 0x00, 0x0D, mode_byte, 0x00, 0x00, 0x00];
        let event = parse(&data).unwrap();
        if let AapEvent::AncMode(mode) = event {
            assert_eq!(mode.as_str(), expected_str);
        } else {
            panic!("expected AncMode event for byte 0x{mode_byte:02X}");
        }
    }
}

#[test]
fn test_parse_ear_detection() {
    // Primary in ear, secondary out of ear
    let data = [0x04, 0x00, 0x04, 0x00, 0x06, 0x00, 0x00, 0x01];
    let event = parse(&data).unwrap();
    if let AapEvent::EarDetection(ed) = event {
        assert!(ed.primary.is_in_ear());
        assert!(!ed.secondary.is_in_ear());
    } else {
        panic!("expected EarDetection event");
    }
}

#[test]
fn test_parse_conversational_awareness() {
    let data = [0x04, 0x00, 0x04, 0x00, 0x09, 0x00, 0x28, 0x01, 0x00, 0x00, 0x00];
    let event = parse(&data).unwrap();
    assert!(matches!(event, AapEvent::ConversationalAwareness(true)));

    let data = [0x04, 0x00, 0x04, 0x00, 0x09, 0x00, 0x28, 0x02, 0x00, 0x00, 0x00];
    let event = parse(&data).unwrap();
    assert!(matches!(event, AapEvent::ConversationalAwareness(false)));
}

#[test]
fn test_parse_adaptive_noise_level() {
    let data = [0x04, 0x00, 0x04, 0x00, 0x09, 0x00, 0x2E, 0x32, 0x00, 0x00, 0x00];
    let event = parse(&data).unwrap();
    assert!(matches!(event, AapEvent::AdaptiveNoiseLevel(50)));
}

#[test]
fn test_parse_one_bud_anc() {
    let data = [0x04, 0x00, 0x04, 0x00, 0x09, 0x00, 0x1B, 0x01, 0x00, 0x00, 0x00];
    let event = parse(&data).unwrap();
    assert!(matches!(event, AapEvent::OneBudAnc(true)));

    let data = [0x04, 0x00, 0x04, 0x00, 0x09, 0x00, 0x1B, 0x02, 0x00, 0x00, 0x00];
    let event = parse(&data).unwrap();
    assert!(matches!(event, AapEvent::OneBudAnc(false)));
}

#[test]
fn test_parse_volume_swipe() {
    let data = [0x04, 0x00, 0x04, 0x00, 0x09, 0x00, 0x25, 0x01, 0x00, 0x00, 0x00];
    let event = parse(&data).unwrap();
    assert!(matches!(event, AapEvent::VolumeSwipe(true)));

    let data = [0x04, 0x00, 0x04, 0x00, 0x09, 0x00, 0x25, 0x02, 0x00, 0x00, 0x00];
    let event = parse(&data).unwrap();
    assert!(matches!(event, AapEvent::VolumeSwipe(false)));
}

#[test]
fn test_parse_adaptive_volume() {
    let data = [0x04, 0x00, 0x04, 0x00, 0x09, 0x00, 0x26, 0x01, 0x00, 0x00, 0x00];
    let event = parse(&data).unwrap();
    assert!(matches!(event, AapEvent::AdaptiveVolume(true)));

    let data = [0x04, 0x00, 0x04, 0x00, 0x09, 0x00, 0x26, 0x02, 0x00, 0x00, 0x00];
    let event = parse(&data).unwrap();
    assert!(matches!(event, AapEvent::AdaptiveVolume(false)));
}

#[test]
fn test_parse_chime_volume() {
    let data = [0x04, 0x00, 0x04, 0x00, 0x09, 0x00, 0x1F, 0x50, 0x00, 0x00, 0x00];
    let event = parse(&data).unwrap();
    assert!(matches!(event, AapEvent::ChimeVolume(0x50)));
}

#[test]
fn test_parse_audio_source() {
    let data = [0x04, 0x00, 0x04, 0x00, 0x0E, 0x00, 0x02, 0x00, 0x00];
    let event = parse(&data).unwrap();
    assert!(matches!(event, AapEvent::AudioSource(AudioSource::Media)));

    let data = [0x04, 0x00, 0x04, 0x00, 0x0E, 0x00, 0x01, 0x00, 0x00];
    let event = parse(&data).unwrap();
    assert!(matches!(event, AapEvent::AudioSource(AudioSource::Call)));

    let data = [0x04, 0x00, 0x04, 0x00, 0x0E, 0x00, 0x00, 0x00, 0x00];
    let event = parse(&data).unwrap();
    assert!(matches!(event, AapEvent::AudioSource(AudioSource::NoSource)));
}

#[test]
fn test_parse_head_tracking() {
    // Head tracking packets are variable length
    let data = [0x04, 0x00, 0x04, 0x00, 0x17, 0x00, 0x01, 0x02, 0x03];
    let event = parse(&data).unwrap();
    if let AapEvent::HeadTracking(payload) = event {
        assert_eq!(payload, vec![0x01, 0x02, 0x03]);
    } else {
        panic!("expected HeadTracking event");
    }
}

#[test]
fn test_known_commands_debug_not_warn() {
    // These should return Err; they are commands the protocol defines
    let commands: &[u8] = &[0x02, 0x08, 0x0C, 0x4E, 0x52, 0x53, 0x55];
    for &cmd in commands {
        let data = [0x04, 0x00, 0x04, 0x00, cmd, 0x00, 0x00, 0x00, 0x00, 0x00];
        let result = parse(&data);
        assert!(result.is_err(), "command 0x{cmd:02X} should return Err");
    }
}

#[test]
fn test_known_control_subcmds_debug_not_warn() {
    // Known but unhandled control sub-commands should not panic
    let subcmds: &[u8] = &[0x17, 0x18, 0x23, 0x24, 0x29, 0x2C, 0x2F, 0x33, 0x35, 0x3E];
    for &sub in subcmds {
        let data = [0x04, 0x00, 0x04, 0x00, 0x09, 0x00, sub, 0x00, 0x00, 0x00, 0x00];
        let result = parse(&data);
        assert!(result.is_err(), "sub-command 0x{sub:02X} should return Err");
    }
}
