use aap::protocol::AncMode;
use aap::protocol::BatteryComponent;
use aap::protocol::ChargingStatus;
use aap::protocol::EarStatus;
use aap::protocol::MicMode;
use aap::text::same_bytes;
use aap::text::same_text;
use aap::text::split_fields;

#[test]
fn mic_mode_bytes_and_names() {
    assert_eq!(MicMode::from_byte(0x00), Some(MicMode::Automatic));
    assert_eq!(MicMode::from_byte(0x01), Some(MicMode::Right));
    assert_eq!(MicMode::from_byte(0x02), Some(MicMode::Left));
    assert_eq!(MicMode::from_byte(0x03), None);
    for m in [MicMode::Automatic, MicMode::Right, MicMode::Left] {
        assert_eq!(MicMode::from_byte(m.to_byte()), Some(m));
        assert_eq!(MicMode::from_str(m.as_str()), Some(m));
    }
    assert_eq!(MicMode::Automatic.as_str(), "auto");
    assert_eq!(MicMode::Right.as_str(), "right");
    assert_eq!(MicMode::Left.as_str(), "left");
    assert_eq!(MicMode::from_str("automatic"), Some(MicMode::Automatic));
    assert_eq!(MicMode::from_str("Auto"), None);
    assert_eq!(MicMode::from_str(""), None);
    assert_eq!(MicMode::from_str("lefty"), None);
}

#[test]
fn anc_mode_bytes_and_names() {
    assert_eq!(AncMode::from_byte(0x00), None);
    assert_eq!(AncMode::from_byte(0x01), Some(AncMode::Off));
    assert_eq!(AncMode::from_byte(0x02), Some(AncMode::NoiseCancellation));
    assert_eq!(AncMode::from_byte(0x03), Some(AncMode::Transparency));
    assert_eq!(AncMode::from_byte(0x04), Some(AncMode::Adaptive));
    assert_eq!(AncMode::from_byte(0x05), None);
    for m in [AncMode::Off, AncMode::NoiseCancellation, AncMode::Transparency, AncMode::Adaptive] {
        assert_eq!(AncMode::from_byte(m.to_byte()), Some(m));
        assert_eq!(AncMode::from_str(m.as_str()), Some(m));
    }
    assert_eq!(AncMode::from_str("noise"), Some(AncMode::NoiseCancellation));
    assert_eq!(AncMode::from_str("noise cancellation"), None);
}

#[test]
fn battery_component_and_charging_status_bytes() {
    assert_eq!(BatteryComponent::from_byte(0x01), Some(BatteryComponent::Headphones));
    assert_eq!(BatteryComponent::from_byte(0x02), Some(BatteryComponent::Right));
    assert_eq!(BatteryComponent::from_byte(0x04), Some(BatteryComponent::Left));
    assert_eq!(BatteryComponent::from_byte(0x08), Some(BatteryComponent::Case));
    assert_eq!(BatteryComponent::from_byte(0x03), None);
    assert_eq!(BatteryComponent::Case.to_byte(), 0x08);
    assert_eq!(ChargingStatus::from_byte(0x00), Some(ChargingStatus::Unknown));
    assert_eq!(ChargingStatus::from_byte(0x01), Some(ChargingStatus::Charging));
    assert_eq!(ChargingStatus::from_byte(0x02), Some(ChargingStatus::Discharging));
    assert_eq!(ChargingStatus::from_byte(0x04), Some(ChargingStatus::Disconnected));
    assert_eq!(ChargingStatus::from_byte(0x03), None);
    assert_eq!(ChargingStatus::Disconnected.to_byte(), 0x04);
}

#[test]
fn ear_status_bytes() {
    assert_eq!(EarStatus::from_byte(0x00), Some(EarStatus::InEar));
    assert_eq!(EarStatus::from_byte(0x01), Some(EarStatus::OutOfEar));
    assert_eq!(EarStatus::from_byte(0x02), Some(EarStatus::InCase));
    assert_eq!(EarStatus::from_byte(0x03), None);
    assert!(EarStatus::InEar.is_in_ear());
    assert!(!EarStatus::OutOfEar.is_in_ear());
    assert!(!EarStatus::InCase.is_in_ear());
    assert_eq!(EarStatus::InCase.to_byte(), 0x02);
}

#[test]
fn text_comparison() {
    assert!(same_text("abc", "abc"));
    assert!(!same_text("abc", "abd"));
    assert!(!same_text("abc", "ab"));
    assert!(same_text("", ""));
    assert!(same_text("é", "é"));
    assert!(same_bytes(&[1, 2], &[1, 2]));
    assert!(!same_bytes(&[1, 2], &[1, 3]));
}

#[test]
fn fields_split_at_zeros() {
    let f = split_fields(&[0, 0, 1, 2, 0, 3, 0, 0, 4]);
    assert_eq!(f, vec![vec![1, 2], vec![3], vec![4]]);
    assert!(split_fields(&[]).is_empty());
    assert!(split_fields(&[0, 0]).is_empty());
    assert_eq!(split_fields(&[7]), vec![vec![7]]);
}
