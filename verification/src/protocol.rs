//! Protocol constants and the small value types carried in AAP packets.
//!
//! Transport: L2CAP, PSM 0x1001 (4097). All control packets share the header
//! `04 00 04 00 [cmd] 00 [payload]`.

use vstd::prelude::*;

verus! {

/// L2CAP PSM of the AAP control channel.
pub const AAP_PSM: u16 = 0x1001;

/// AirPods service UUID for device identification.
pub const AIRPODS_SERVICE_UUID: &'static str = "74ec2172-0bad-4d01-8f77-997b2be0722a";

/// Apple vendor ID for BLE manufacturer data (used in scanning/identification).
pub const APPLE_COMPANY_ID: u16 = 0x004C;

/// Common packet header for control commands.
pub const HEADER: [u8; 4] = [0x04, 0x00, 0x04, 0x00];

/// Disconnection sentinel.
pub const DISCONNECT_PACKET: [u8; 4] = [0x00, 0x01, 0x00, 0x00];

// Command IDs (byte at offset 4).
pub const CMD_BATTERY: u8 = 0x04;
pub const CMD_EAR_DETECTION: u8 = 0x06;
pub const CMD_CONTROL: u8 = 0x09;
pub const CMD_AUDIO_SOURCE: u8 = 0x0E;
/// Command ID used in the SUBSCRIBE_NOTIFICATIONS packet.
pub const CMD_NOTIFICATION_SUBSCRIBE: u8 = 0x0F;
pub const CMD_HEAD_TRACKING: u8 = 0x17;
pub const CMD_STEM_PRESS: u8 = 0x19;
pub const CMD_DEVICE_INFO: u8 = 0x1D;
/// Acknowledgement of the features exchange.
pub const CMD_FEATURES_ACK: u8 = 0x2B;
pub const CMD_CONNECTED_DEVICES: u8 = 0x2E;
pub const CMD_CA_ACTIVITY: u8 = 0x4B;
pub const CMD_EQ_DATA: u8 = 0x53;

// Control sub-commands (byte at offset 6, under CMD_CONTROL). Most carry a
// one-byte payload with `0x01 = enabled` / `0x02 = disabled`; Hearing Aid
// uses two bytes (enrolled, enabled).
pub const SUB_MIC_MODE: u8 = 0x01;
pub const SUB_BUTTON_SEND_MODE: u8 = 0x05;
pub const SUB_OWNS_CONNECTION: u8 = 0x06;
pub const SUB_EAR_DETECTION: u8 = 0x0A;
pub const SUB_ANC_MODE: u8 = 0x0D;
pub const SUB_VOICE_TRIGGER_SIRI: u8 = 0x12;
pub const SUB_SINGLE_CLICK_MODE: u8 = 0x14;
pub const SUB_DOUBLE_CLICK_MODE: u8 = 0x15;
pub const SUB_CLICK_HOLD_MODE: u8 = 0x16;
pub const SUB_DOUBLE_CLICK_INTERVAL: u8 = 0x17;
pub const SUB_CLICK_HOLD_INTERVAL: u8 = 0x18;
pub const SUB_LISTENING_MODE_CONFIGS: u8 = 0x1A;
pub const SUB_ONE_BUD_ANC: u8 = 0x1B;
pub const SUB_CROWN_ROTATION_DIRECTION: u8 = 0x1C;
pub const SUB_AUTO_ANSWER_MODE: u8 = 0x1E;
pub const SUB_CHIME_VOLUME: u8 = 0x1F;
pub const SUB_CONNECT_AUTOMATICALLY: u8 = 0x20;
pub const SUB_VOLUME_SWIPE_INTERVAL: u8 = 0x23;
pub const SUB_CALL_MANAGEMENT: u8 = 0x24;
pub const SUB_VOLUME_SWIPE: u8 = 0x25;
pub const SUB_ADAPTIVE_VOLUME: u8 = 0x26;
pub const SUB_SOFTWARE_MUTE: u8 = 0x27;
pub const SUB_CONVERSATIONAL_AWARENESS: u8 = 0x28;
pub const SUB_SSL: u8 = 0x29;
pub const SUB_HEARING_AID: u8 = 0x2C;
pub const SUB_ADAPTIVE_NOISE_LEVEL: u8 = 0x2E;
pub const SUB_GAIN_SWIPE: u8 = 0x2F;
pub const SUB_HRM: u8 = 0x30;
pub const SUB_IN_CASE_TONE: u8 = 0x31;
pub const SUB_SIRI_MULTITONE: u8 = 0x32;
pub const SUB_HEARING_ASSIST: u8 = 0x33;
pub const SUB_ALLOW_OFF_LISTENING_MODE: u8 = 0x34;
pub const SUB_SLEEP_DETECTION: u8 = 0x35;
pub const SUB_ALLOW_AUTO_CONNECT: u8 = 0x36;
pub const SUB_PPE_TOGGLE: u8 = 0x37;
pub const SUB_PPE_CAP_LEVEL: u8 = 0x38;
pub const SUB_RAW_GESTURES: u8 = 0x39;
pub const SUB_TEMPORARY_PAIRING: u8 = 0x3A;
pub const SUB_DYNAMIC_END_OF_CHARGE: u8 = 0x3B;
pub const SUB_SYSTEM_SIRI_MESSAGE: u8 = 0x3C;
pub const SUB_HEARING_AID_GENERIC: u8 = 0x3D;
pub const SUB_UPLINK_EQ_BUD: u8 = 0x3E;
pub const SUB_UPLINK_EQ_SOURCE: u8 = 0x3F;
pub const SUB_IN_CASE_TONE_VOLUME: u8 = 0x40;
pub const SUB_DISABLE_BUTTON_INPUT: u8 = 0x41;

/// Primary microphone bud selection (control sub-command 0x01).
#[derive(Debug, Clone, Copy, PartialEq, Eq, Structural)]
pub enum MicMode {
    Automatic,
    Right,
    Left,
}

impl MicMode {
    /// The mode that a wire byte denotes, if any.
    pub open spec fn spec_from_byte(b: u8) -> Option<MicMode> {
        if b == 0x00 {
            Some(MicMode::Automatic)
        } else if b == 0x01 {
            Some(MicMode::Right)
        } else if b == 0x02 {
            Some(MicMode::Left)
        } else {
            None
        }
    }

    /// The wire byte of a mode.
    pub open spec fn spec_to_byte(self) -> u8 {
        match self {
            MicMode::Automatic => 0x00,
            MicMode::Right => 0x01,
            MicMode::Left => 0x02,
        }
    }

    /// The user-facing name of a mode.
    pub open spec fn spec_as_str(self) -> Seq<char> {
        match self {
            MicMode::Automatic => "auto"@,
            MicMode::Right => "right"@,
            MicMode::Left => "left"@,
        }
    }

    /// The mode that a user-facing name selects, if any.
    pub open spec fn spec_from_str(s: Seq<char>) -> Option<MicMode> {
        if s == "auto"@ || s == "automatic"@ {
            Some(MicMode::Automatic)
        } else if s == "right"@ {
            Some(MicMode::Right)
        } else if s == "left"@ {
            Some(MicMode::Left)
        } else {
            None
        }
    }

    pub fn from_byte(b: u8) -> (r: Option<MicMode>)
        ensures
            r == Self::spec_from_byte(b),
    {
        match b {
            0x00 => Some(MicMode::Automatic),
            0x01 => Some(MicMode::Right),
            0x02 => Some(MicMode::Left),
            _ => None,
        }
    }

    pub fn to_byte(&self) -> (r: u8)
        ensures
            r == self.spec_to_byte(),
    {
        match self {
            MicMode::Automatic => 0x00,
            MicMode::Right => 0x01,
            MicMode::Left => 0x02,
        }
    }

    pub fn as_str(&self) -> (r: &'static str)
        ensures
            r@ == self.spec_as_str(),
    {
        match self {
            MicMode::Automatic => "auto",
            MicMode::Right => "right",
            MicMode::Left => "left",
        }
    }

    pub fn from_str(s: &str) -> (r: Option<MicMode>)
        ensures
            r == Self::spec_from_str(s@),
    {
        if crate::text::same_text(s, "auto") || crate::text::same_text(s, "automatic") {
            Some(MicMode::Automatic)
        } else if crate::text::same_text(s, "right") {
            Some(MicMode::Right)
        } else if crate::text::same_text(s, "left") {
            Some(MicMode::Left)
        } else {
            None
        }
    }
}

/// Every mode is read back from its own byte, and a byte that names a mode
/// is that mode's byte.
pub proof fn lemma_mic_mode_byte_roundtrip(m: MicMode, b: u8)
    ensures
        MicMode::spec_from_byte(m.spec_to_byte()) == Some(m),
        MicMode::spec_from_byte(b) == Some(m) ==> m.spec_to_byte() == b,
{
}

/// Every mode is selected again by its own name.
pub proof fn lemma_mic_mode_name_roundtrip(m: MicMode)
    ensures
        MicMode::spec_from_str(m.spec_as_str()) == Some(m),
{
    reveal_strlit("auto");
    reveal_strlit("automatic");
    reveal_strlit("right");
    reveal_strlit("left");
    assert("auto"@.len() == 4);
    assert("automatic"@.len() == 9);
    assert("right"@.len() == 5);
    assert("left"@.len() == 4);
    assert("left"@[0] != "auto"@[0]);
}

/// ANC mode values (byte at offset 7 of a control packet).
#[derive(Debug, Clone, Copy, PartialEq, Eq, Structural)]
pub enum AncMode {
    Off,
    NoiseCancellation,
    Transparency,
    Adaptive,
}

impl AncMode {
    /// The mode that a wire byte denotes, if any.
    pub open spec fn spec_from_byte(b: u8) -> Option<AncMode> {
        if b == 0x01 {
            Some(AncMode::Off)
        } else if b == 0x02 {
            Some(AncMode::NoiseCancellation)
        } else if b == 0x03 {
            Some(AncMode::Transparency)
        } else if b == 0x04 {
            Some(AncMode::Adaptive)
        } else {
            None
        }
    }

    /// The wire byte of a mode.
    pub open spec fn spec_to_byte(self) -> u8 {
        match self {
            AncMode::Off => 0x01,
            AncMode::NoiseCancellation => 0x02,
            AncMode::Transparency => 0x03,
            AncMode::Adaptive => 0x04,
        }
    }

    /// The user-facing name of a mode.
    pub open spec fn spec_as_str(self) -> Seq<char> {
        match self {
            AncMode::Off => "off"@,
            AncMode::NoiseCancellation => "noise"@,
            AncMode::Transparency => "transparency"@,
            AncMode::Adaptive => "adaptive"@,
        }
    }

    /// The mode that a user-facing name selects, if any.
    pub open spec fn spec_from_str(s: Seq<char>) -> Option<AncMode> {
        if s == "off"@ {
            Some(AncMode::Off)
        } else if s == "noise"@ {
            Some(AncMode::NoiseCancellation)
        } else if s == "transparency"@ {
            Some(AncMode::Transparency)
        } else if s == "adaptive"@ {
            Some(AncMode::Adaptive)
        } else {
            None
        }
    }

    pub fn from_byte(b: u8) -> (r: Option<AncMode>)
        ensures
            r == Self::spec_from_byte(b),
    {
        match b {
            0x01 => Some(AncMode::Off),
            0x02 => Some(AncMode::NoiseCancellation),
            0x03 => Some(AncMode::Transparency),
            0x04 => Some(AncMode::Adaptive),
            _ => None,
        }
    }

    pub fn to_byte(&self) -> (r: u8)
        ensures
            r == self.spec_to_byte(),
    {
        match self {
            AncMode::Off => 0x01,
            AncMode::NoiseCancellation => 0x02,
            AncMode::Transparency => 0x03,
            AncMode::Adaptive => 0x04,
        }
    }

    pub fn as_str(&self) -> (r: &'static str)
        ensures
            r@ == self.spec_as_str(),
    {
        match self {
            AncMode::Off => "off",
            AncMode::NoiseCancellation => "noise",
            AncMode::Transparency => "transparency",
            AncMode::Adaptive => "adaptive",
        }
    }

    pub fn from_str(s: &str) -> (r: Option<AncMode>)
        ensures
            r == Self::spec_from_str(s@),
    {
        if crate::text::same_text(s, "off") {
            Some(AncMode::Off)
        } else if crate::text::same_text(s, "noise") {
            Some(AncMode::NoiseCancellation)
        } else if crate::text::same_text(s, "transparency") {
            Some(AncMode::Transparency)
        } else if crate::text::same_text(s, "adaptive") {
            Some(AncMode::Adaptive)
        } else {
            None
        }
    }
}

/// Every ANC mode is read back from its own byte, and a byte that names a
/// mode is that mode's byte.
pub proof fn lemma_anc_mode_byte_roundtrip(m: AncMode, b: u8)
    ensures
        AncMode::spec_from_byte(m.spec_to_byte()) == Some(m),
        AncMode::spec_from_byte(b) == Some(m) ==> m.spec_to_byte() == b,
{
}

/// Every ANC mode is selected again by its own name.
pub proof fn lemma_anc_mode_name_roundtrip(m: AncMode)
    ensures
        AncMode::spec_from_str(m.spec_as_str()) == Some(m),
{
    reveal_strlit("off");
    reveal_strlit("noise");
    reveal_strlit("transparency");
    reveal_strlit("adaptive");
    assert("off"@.len() == 3);
    assert("noise"@.len() == 5);
    assert("transparency"@.len() == 12);
    assert("adaptive"@.len() == 8);
}

/// Battery component identifiers.
#[derive(Debug, Clone, Copy, PartialEq, Eq, Structural)]
pub enum BatteryComponent {
    Headphones,
    Right,
    Left,
    Case,
}

impl BatteryComponent {
    /// The component that a wire byte denotes, if any.
    pub open spec fn spec_from_byte(b: u8) -> Option<BatteryComponent> {
        if b == 0x01 {
            Some(BatteryComponent::Headphones)
        } else if b == 0x02 {
            Some(BatteryComponent::Right)
        } else if b == 0x04 {
            Some(BatteryComponent::Left)
        } else if b == 0x08 {
            Some(BatteryComponent::Case)
        } else {
            None
        }
    }

    /// The wire byte of a component.
    pub open spec fn spec_to_byte(self) -> u8 {
        match self {
            BatteryComponent::Headphones => 0x01,
            BatteryComponent::Right => 0x02,
            BatteryComponent::Left => 0x04,
            BatteryComponent::Case => 0x08,
        }
    }

    pub fn from_byte(b: u8) -> (r: Option<BatteryComponent>)
        ensures
            r == Self::spec_from_byte(b),
    {
        match b {
            0x01 => Some(BatteryComponent::Headphones),
            0x02 => Some(BatteryComponent::Right),
            0x04 => Some(BatteryComponent::Left),
            0x08 => Some(BatteryComponent::Case),
            _ => None,
        }
    }

    pub fn to_byte(&self) -> (r: u8)
        ensures
            r == self.spec_to_byte(),
    {
        match self {
            BatteryComponent::Headphones => 0x01,
            BatteryComponent::Right => 0x02,
            BatteryComponent::Left => 0x04,
            BatteryComponent::Case => 0x08,
        }
    }
}

/// Every battery component is read back from its own byte, and a byte that
/// names a component is that component's byte.
pub proof fn lemma_battery_component_byte_roundtrip(c: BatteryComponent, b: u8)
    ensures
        BatteryComponent::spec_from_byte(c.spec_to_byte()) == Some(c),
        BatteryComponent::spec_from_byte(b) == Some(c) ==> c.spec_to_byte() == b,
{
}

/// Battery charging status.
#[derive(Debug, Clone, Copy, PartialEq, Eq, Structural)]
pub enum ChargingStatus {
    Unknown,
    Charging,
    Discharging,
    Disconnected,
}

impl ChargingStatus {
    /// The status that a wire byte denotes, if any.
    pub open spec fn spec_from_byte(b: u8) -> Option<ChargingStatus> {
        if b == 0x00 {
            Some(ChargingStatus::Unknown)
        } else if b == 0x01 {
            Some(ChargingStatus::Charging)
        } else if b == 0x02 {
            Some(ChargingStatus::Discharging)
        } else if b == 0x04 {
            Some(ChargingStatus::Disconnected)
        } else {
            None
        }
    }

    /// The wire byte of a status.
    pub open spec fn spec_to_byte(self) -> u8 {
        match self {
            ChargingStatus::Unknown => 0x00,
            ChargingStatus::Charging => 0x01,
            ChargingStatus::Discharging => 0x02,
            ChargingStatus::Disconnected => 0x04,
        }
    }

    pub fn from_byte(b: u8) -> (r: Option<ChargingStatus>)
        ensures
            r == Self::spec_from_byte(b),
    {
        match b {
            0x00 => Some(ChargingStatus::Unknown),
            0x01 => Some(ChargingStatus::Charging),
            0x02 => Some(ChargingStatus::Discharging),
            0x04 => Some(ChargingStatus::Disconnected),
            _ => None,
        }
    }

    pub fn to_byte(&self) -> (r: u8)
        ensures
            r == self.spec_to_byte(),
    {
        match self {
            ChargingStatus::Unknown => 0x00,
            ChargingStatus::Charging => 0x01,
            ChargingStatus::Discharging => 0x02,
            ChargingStatus::Disconnected => 0x04,
        }
    }
}

/// Every charging status is read back from its own byte, and a byte that
/// names a status is that status's byte.
pub proof fn lemma_charging_status_byte_roundtrip(s: ChargingStatus, b: u8)
    ensures
        ChargingStatus::spec_from_byte(s.spec_to_byte()) == Some(s),
        ChargingStatus::spec_from_byte(b) == Some(s) ==> s.spec_to_byte() == b,
{
}

/// Ear detection status for a single pod.
#[derive(Debug, Clone, Copy, PartialEq, Eq, Structural)]
pub enum EarStatus {
    InEar,
    OutOfEar,
    InCase,
}

impl EarStatus {
    /// The status that a wire byte denotes, if any.
    pub open spec fn spec_from_byte(b: u8) -> Option<EarStatus> {
        if b == 0x00 {
            Some(EarStatus::InEar)
        } else if b == 0x01 {
            Some(EarStatus::OutOfEar)
        } else if b == 0x02 {
            Some(EarStatus::InCase)
        } else {
            None
        }
    }

    /// The wire byte of a status.
    pub open spec fn spec_to_byte(self) -> u8 {
        match self {
            EarStatus::InEar => 0x00,
            EarStatus::OutOfEar => 0x01,
            EarStatus::InCase => 0x02,
        }
    }

    pub fn from_byte(b: u8) -> (r: Option<EarStatus>)
        ensures
            r == Self::spec_from_byte(b),
    {
        match b {
            0x00 => Some(EarStatus::InEar),
            0x01 => Some(EarStatus::OutOfEar),
            0x02 => Some(EarStatus::InCase),
            _ => None,
        }
    }

    pub fn to_byte(&self) -> (r: u8)
        ensures
            r == self.spec_to_byte(),
    {
        match self {
            EarStatus::InEar => 0x00,
            EarStatus::OutOfEar => 0x01,
            EarStatus::InCase => 0x02,
        }
    }

    pub fn is_in_ear(&self) -> (r: bool)
        ensures
            r == (*self == EarStatus::InEar),
    {
        matches!(self, EarStatus::InEar)
    }
}

/// Every ear status is read back from its own byte, and a byte that names a
/// status is that status's byte.
pub proof fn lemma_ear_status_byte_roundtrip(s: EarStatus, b: u8)
    ensures
        EarStatus::spec_from_byte(s.spec_to_byte()) == Some(s),
        EarStatus::spec_from_byte(b) == Some(s) ==> s.spec_to_byte() == b,
{
}

} // verus!
