//! Parsing of raw AAP packets into typed events.

use vstd::prelude::*;
use vstd::slice::slice_subrange;
use vstd::slice::slice_to_vec;
use crate::protocol::AncMode;
use crate::protocol::BatteryComponent;
use crate::protocol::ChargingStatus;
use crate::protocol::EarStatus;
use crate::protocol::CMD_AUDIO_SOURCE;
use crate::protocol::CMD_BATTERY;
use crate::protocol::CMD_CA_ACTIVITY;
use crate::protocol::CMD_CONNECTED_DEVICES;
use crate::protocol::CMD_CONTROL;
use crate::protocol::CMD_DEVICE_INFO;
use crate::protocol::CMD_EAR_DETECTION;
use crate::protocol::CMD_EQ_DATA;
use crate::protocol::CMD_FEATURES_ACK;
use crate::protocol::CMD_HEAD_TRACKING;
use crate::protocol::CMD_STEM_PRESS;
use crate::protocol::SUB_ADAPTIVE_NOISE_LEVEL;
use crate::protocol::SUB_ADAPTIVE_VOLUME;
use crate::protocol::SUB_ANC_MODE;
use crate::protocol::SUB_CALL_MANAGEMENT;
use crate::protocol::SUB_CHIME_VOLUME;
use crate::protocol::SUB_CLICK_HOLD_INTERVAL;
use crate::protocol::SUB_CONVERSATIONAL_AWARENESS;
use crate::protocol::SUB_DOUBLE_CLICK_INTERVAL;
use crate::protocol::SUB_GAIN_SWIPE;
use crate::protocol::SUB_HEARING_AID;
use crate::protocol::SUB_HEARING_ASSIST;
use crate::protocol::SUB_ONE_BUD_ANC;
use crate::protocol::SUB_SLEEP_DETECTION;
use crate::protocol::SUB_SSL;
use crate::protocol::SUB_UPLINK_EQ_BUD;
use crate::protocol::SUB_VOLUME_SWIPE;
use crate::protocol::SUB_VOLUME_SWIPE_INTERVAL;
use crate::text::byte_vec_views;
use crate::text::decode_utf8_lossy;
use crate::text::nonempty_fields;
use crate::text::split_fields;
use crate::text::utf8_lossy;

verus! {

/// Why a packet could not be turned into an event.
#[derive(Debug, Clone, Copy, PartialEq, Eq, Structural)]
pub enum ParseError {
    /// The packet (or the part of it that was read) holds too few bytes; the
    /// number is the length that was found.
    TooShort(usize),
    /// The packet carries a command or control sub-command that the parser
    /// does not turn into an event.
    UnknownCommand(u8),
    /// A byte that must name a protocol value names none.
    InvalidData,
}

/// Active audio source reported by AirPods.
#[derive(Debug, Clone, Copy, PartialEq, Eq, Structural)]
pub enum AudioSource {
    NoSource,
    Call,
    Media,
    Unknown(u8),
}

/// One battery's state.
#[derive(Debug, Clone, Copy)]
pub struct BatteryEntry {
    pub level: u8,
    pub charging: bool,
    pub connected: bool,
}

/// The batteries named in a battery notification.
#[derive(Debug, Clone)]
pub struct BatteryUpdate {
    pub left: Option<BatteryEntry>,
    pub right: Option<BatteryEntry>,
    pub case: Option<BatteryEntry>,
}

/// Ear detection state of both pods.
#[derive(Debug, Clone, Copy)]
pub struct EarDetectionUpdate {
    pub primary: EarStatus,
    pub secondary: EarStatus,
}

/// Conversational awareness activity.
#[derive(Debug, Clone, Copy, PartialEq, Eq, Structural)]
pub enum CaActivity {
    Speaking,
    Stopped,
    Normal,
}

/// Device identification strings.
#[derive(Debug, Clone)]
pub struct DeviceInfoUpdate {
    pub name: String,
    pub model: String,
    pub manufacturer: String,
    pub serial: String,
    pub firmware: String,
}

/// The contents of a [`DeviceInfoUpdate`].
pub struct DeviceInfoModel {
    pub name: Seq<char>,
    pub model: Seq<char>,
    pub manufacturer: Seq<char>,
    pub serial: Seq<char>,
    pub firmware: Seq<char>,
}

impl View for DeviceInfoUpdate {
    type V = DeviceInfoModel;

    open spec fn view(&self) -> DeviceInfoModel {
        DeviceInfoModel {
            name: self.name@,
            model: self.model@,
            manufacturer: self.manufacturer@,
            serial: self.serial@,
            firmware: self.firmware@,
        }
    }
}

/// Parsed AAP events from incoming packets.
#[derive(Debug, Clone)]
pub enum AapEvent {
    HandshakeAck,
    FeaturesAck,
    Battery(BatteryUpdate),
    AncMode(AncMode),
    EarDetection(EarDetectionUpdate),
    ConversationalAwareness(bool),
    ConversationalActivity(CaActivity),
    DeviceInfo(DeviceInfoUpdate),
    AdaptiveNoiseLevel(u8),
    OneBudAnc(bool),
    VolumeSwipe(bool),
    AdaptiveVolume(bool),
    ChimeVolume(u8),
    HeadTracking(Vec<u8>),
    AudioSource(AudioSource),
    Disconnected,
}

/// The contents of an [`AapEvent`]: the same variants, with byte and text
/// payloads seen as sequences.
pub enum AapEventModel {
    HandshakeAck,
    FeaturesAck,
    Battery(BatteryUpdate),
    AncMode(AncMode),
    EarDetection(EarDetectionUpdate),
    ConversationalAwareness(bool),
    ConversationalActivity(CaActivity),
    DeviceInfo(DeviceInfoModel),
    AdaptiveNoiseLevel(u8),
    OneBudAnc(bool),
    VolumeSwipe(bool),
    AdaptiveVolume(bool),
    ChimeVolume(u8),
    HeadTracking(Seq<u8>),
    AudioSource(AudioSource),
    Disconnected,
}

impl View for AapEvent {
    type V = AapEventModel;

    open spec fn view(&self) -> AapEventModel {
        match self {
            AapEvent::HandshakeAck => AapEventModel::HandshakeAck,
            AapEvent::FeaturesAck => AapEventModel::FeaturesAck,
            AapEvent::Battery(b) => AapEventModel::Battery(*b),
            AapEvent::AncMode(m) => AapEventModel::AncMode(*m),
            AapEvent::EarDetection(e) => AapEventModel::EarDetection(*e),
            AapEvent::ConversationalAwareness(b) => AapEventModel::ConversationalAwareness(*b),
            AapEvent::ConversationalActivity(a) => AapEventModel::ConversationalActivity(*a),
            AapEvent::DeviceInfo(d) => AapEventModel::DeviceInfo(d@),
            AapEvent::AdaptiveNoiseLevel(l) => AapEventModel::AdaptiveNoiseLevel(*l),
            AapEvent::OneBudAnc(b) => AapEventModel::OneBudAnc(*b),
            AapEvent::VolumeSwipe(b) => AapEventModel::VolumeSwipe(*b),
            AapEvent::AdaptiveVolume(b) => AapEventModel::AdaptiveVolume(*b),
            AapEvent::ChimeVolume(v) => AapEventModel::ChimeVolume(*v),
            AapEvent::HeadTracking(p) => AapEventModel::HeadTracking(p@),
            AapEvent::AudioSource(s) => AapEventModel::AudioSource(*s),
            AapEvent::Disconnected => AapEventModel::Disconnected,
        }
    }
}

/// The contents of a parse outcome.
pub open spec fn outcome(r: Result<AapEvent, ParseError>) -> Result<AapEventModel, ParseError> {
    match r {
        Ok(e) => Ok(e@),
        Err(err) => Err(err),
    }
}

// ---------------------------------------------------------------------------
// What each packet means.
// ---------------------------------------------------------------------------

/// The packet starts with the control header `04 00 04 00`.
pub open spec fn has_control_header(d: Seq<u8>) -> bool {
    &&& d.len() >= 4
    &&& d[0] == 0x04
    &&& d[1] == 0x00
    &&& d[2] == 0x04
    &&& d[3] == 0x00
}

/// The packet starts with the handshake acknowledgement `01 00 04 00`.
pub open spec fn has_handshake_prefix(d: Seq<u8>) -> bool {
    &&& d.len() >= 4
    &&& d[0] == 0x01
    &&& d[1] == 0x00
    &&& d[2] == 0x04
    &&& d[3] == 0x00
}

/// The packet is exactly the disconnection sentinel `00 01 00 00`.
pub open spec fn is_disconnect_packet(d: Seq<u8>) -> bool {
    d == seq![0x00u8, 0x01u8, 0x00u8, 0x00u8]
}

/// The commands that the parser turns into an event.
pub open spec fn is_handled_command(cmd: u8) -> bool {
    ||| cmd == CMD_FEATURES_ACK
    ||| cmd == CMD_BATTERY
    ||| cmd == CMD_EAR_DETECTION
    ||| cmd == CMD_CONTROL
    ||| cmd == CMD_AUDIO_SOURCE
    ||| cmd == CMD_HEAD_TRACKING
    ||| cmd == CMD_DEVICE_INFO
    ||| cmd == CMD_CA_ACTIVITY
}

/// The control sub-commands that the parser turns into an event.
pub open spec fn is_handled_control(sub: u8) -> bool {
    ||| sub == SUB_ANC_MODE
    ||| sub == SUB_CONVERSATIONAL_AWARENESS
    ||| sub == SUB_ADAPTIVE_NOISE_LEVEL
    ||| sub == SUB_ONE_BUD_ANC
    ||| sub == SUB_VOLUME_SWIPE
    ||| sub == SUB_ADAPTIVE_VOLUME
    ||| sub == SUB_CHIME_VOLUME
}

/// The event that a raw packet denotes, or why it denotes none.
pub open spec fn spec_parse(d: Seq<u8>) -> Result<AapEventModel, ParseError> {
    if d.len() < 4 {
        Err(ParseError::TooShort(d.len() as usize))
    } else if is_disconnect_packet(d) {
        Ok(AapEventModel::Disconnected)
    } else if has_handshake_prefix(d) {
        Ok(AapEventModel::HandshakeAck)
    } else if d.len() < 6 {
        Err(ParseError::TooShort(d.len() as usize))
    } else if !has_control_header(d) {
        Err(ParseError::UnknownCommand(d[0]))
    } else {
        let cmd = d[4];
        let payload = d.skip(6);
        if cmd == CMD_FEATURES_ACK {
            Ok(AapEventModel::FeaturesAck)
        } else if cmd == CMD_BATTERY {
            spec_parse_battery(payload)
        } else if cmd == CMD_EAR_DETECTION {
            spec_parse_ear_detection(payload)
        } else if cmd == CMD_CONTROL {
            spec_parse_control(payload)
        } else if cmd == CMD_AUDIO_SOURCE {
            spec_parse_audio_source(payload)
        } else if cmd == CMD_HEAD_TRACKING {
            Ok(AapEventModel::HeadTracking(payload))
        } else if cmd == CMD_DEVICE_INFO {
            spec_parse_device_info(d)
        } else if cmd == CMD_CA_ACTIVITY {
            spec_parse_ca_activity(payload)
        } else {
            Err(ParseError::UnknownCommand(cmd))
        }
    }
}

/// A battery with no update.
pub open spec fn empty_battery_update() -> BatteryUpdate {
    BatteryUpdate { left: None, right: None, case: None }
}

/// The battery entry that a level byte and a charging status byte describe.
pub open spec fn battery_entry(level: u8, status: u8) -> BatteryEntry {
    BatteryEntry {
        level,
        charging: ChargingStatus::spec_from_byte(status) == Some(ChargingStatus::Charging),
        connected: ChargingStatus::spec_from_byte(status) != Some(ChargingStatus::Disconnected),
    }
}

/// `u` after one battery entry for the component named by byte `component`:
/// the headphones' single battery is shown on both sides, an unknown
/// component changes nothing.
pub open spec fn apply_battery_entry(
    u: BatteryUpdate,
    component: u8,
    entry: BatteryEntry,
) -> BatteryUpdate {
    match BatteryComponent::spec_from_byte(component) {
        Some(BatteryComponent::Headphones) => BatteryUpdate {
            left: Some(entry),
            right: Some(entry),
            case: u.case,
        },
        Some(BatteryComponent::Left) => BatteryUpdate { left: Some(entry), ..u },
        Some(BatteryComponent::Right) => BatteryUpdate { right: Some(entry), ..u },
        Some(BatteryComponent::Case) => BatteryUpdate { case: Some(entry), ..u },
        None => u,
    }
}

/// The update made of the first `k` five-byte entries
/// `[component, _, level, status, _]` of `entries`, later ones winning.
pub open spec fn battery_after(entries: Seq<u8>, k: nat) -> BatteryUpdate
    decreases k,
{
    if k == 0 {
        empty_battery_update()
    } else {
        let o = 5 * (k - 1);
        apply_battery_entry(
            battery_after(entries, (k - 1) as nat),
            entries[o],
            battery_entry(entries[o + 2], entries[o + 3]),
        )
    }
}

/// A battery notification payload: `[count]` then `count` five-byte entries.
pub open spec fn spec_parse_battery(p: Seq<u8>) -> Result<AapEventModel, ParseError> {
    if p.len() == 0 {
        Err(ParseError::TooShort(0))
    } else {
        let count = p[0];
        let entries = p.skip(1);
        if entries.len() < count * 5 {
            Err(ParseError::TooShort(entries.len() as usize))
        } else {
            Ok(AapEventModel::Battery(battery_after(entries, count as nat)))
        }
    }
}

/// An ear detection payload: `[primary_status, secondary_status]`.
pub open spec fn spec_parse_ear_detection(p: Seq<u8>) -> Result<AapEventModel, ParseError> {
    if p.len() < 2 {
        Err(ParseError::TooShort(p.len() as usize))
    } else {
        match (EarStatus::spec_from_byte(p[0]), EarStatus::spec_from_byte(p[1])) {
            (Some(primary), Some(secondary)) => Ok(
                AapEventModel::EarDetection(EarDetectionUpdate { primary, secondary }),
            ),
            _ => Err(ParseError::InvalidData),
        }
    }
}

/// A control payload: `[sub_cmd, value, ...]`.
pub open spec fn spec_parse_control(p: Seq<u8>) -> Result<AapEventModel, ParseError> {
    if p.len() < 2 {
        Err(ParseError::TooShort(p.len() as usize))
    } else {
        let sub = p[0];
        let value = p[1];
        if sub == SUB_ANC_MODE {
            match AncMode::spec_from_byte(value) {
                Some(m) => Ok(AapEventModel::AncMode(m)),
                None => Err(ParseError::InvalidData),
            }
        } else if sub == SUB_CONVERSATIONAL_AWARENESS {
            Ok(AapEventModel::ConversationalAwareness(value == 0x01))
        } else if sub == SUB_ADAPTIVE_NOISE_LEVEL {
            Ok(AapEventModel::AdaptiveNoiseLevel(value))
        } else if sub == SUB_ONE_BUD_ANC {
            Ok(AapEventModel::OneBudAnc(value == 0x01))
        } else if sub == SUB_VOLUME_SWIPE {
            Ok(AapEventModel::VolumeSwipe(value == 0x01))
        } else if sub == SUB_ADAPTIVE_VOLUME {
            Ok(AapEventModel::AdaptiveVolume(value == 0x01))
        } else if sub == SUB_CHIME_VOLUME {
            Ok(AapEventModel::ChimeVolume(value))
        } else {
            Err(ParseError::UnknownCommand(sub))
        }
    }
}

/// The audio source that a byte denotes.
pub open spec fn audio_source_of(b: u8) -> AudioSource {
    if b == 0x00 {
        AudioSource::NoSource
    } else if b == 0x01 {
        AudioSource::Call
    } else if b == 0x02 {
        AudioSource::Media
    } else {
        AudioSource::Unknown(b)
    }
}

/// An audio source payload: `[source_type, ...]`.
pub open spec fn spec_parse_audio_source(p: Seq<u8>) -> Result<AapEventModel, ParseError> {
    if p.len() == 0 {
        Err(ParseError::TooShort(0))
    } else {
        Ok(AapEventModel::AudioSource(audio_source_of(p[0])))
    }
}

/// The conversational activity that a level byte denotes.
pub open spec fn ca_activity_of(level: u8) -> CaActivity {
    if level == 0x01 || level == 0x02 {
        CaActivity::Speaking
    } else if level == 0x03 {
        CaActivity::Stopped
    } else {
        CaActivity::Normal
    }
}

/// A conversational awareness activity payload: `[0x02, 0x00, 0x01, level]`.
pub open spec fn spec_parse_ca_activity(p: Seq<u8>) -> Result<AapEventModel, ParseError> {
    if p.len() < 4 {
        Err(ParseError::TooShort(p.len() as usize))
    } else {
        Ok(AapEventModel::ConversationalActivity(ca_activity_of(p[3])))
    }
}

/// Text `i` of `texts`, or the empty text where there is none.
pub open spec fn text_or_empty(texts: Seq<Seq<char>>, i: int) -> Seq<char> {
    if 0 <= i < texts.len() {
        texts[i]
    } else {
        Seq::empty()
    }
}

/// The device information that a list of texts gives, in the order name,
/// model, manufacturer, serial, firmware.
pub open spec fn device_info_of(texts: Seq<Seq<char>>) -> DeviceInfoModel {
    DeviceInfoModel {
        name: text_or_empty(texts, 0),
        model: text_or_empty(texts, 1),
        manufacturer: text_or_empty(texts, 2),
        serial: text_or_empty(texts, 3),
        firmware: text_or_empty(texts, 4),
    }
}

/// The texts of a device info packet: the zero-separated fields from offset
/// 11 on, each decoded as UTF-8.
pub open spec fn device_info_texts(d: Seq<u8>) -> Seq<Seq<char>> {
    nonempty_fields(d.skip(11)).map_values(|f: Seq<u8>| utf8_lossy(f))
}

/// A whole device info packet: header, six unknown bytes, then
/// zero-terminated strings.
pub open spec fn spec_parse_device_info(d: Seq<u8>) -> Result<AapEventModel, ParseError> {
    if d.len() < 12 {
        Err(ParseError::TooShort(d.len() as usize))
    } else {
        Ok(AapEventModel::DeviceInfo(device_info_of(device_info_texts(d))))
    }
}

// ---------------------------------------------------------------------------
// The parser.
// ---------------------------------------------------------------------------

/// Parse a raw AAP packet into a typed event.
pub fn parse(data: &[u8]) -> (r: Result<AapEvent, ParseError>)
    ensures
        outcome(r) == spec_parse(data@),
{
    let len = data.len();
    if len < 4 {
        return Err(ParseError::TooShort(len));
    }
    if len == 4 && data[0] == 0x00 && data[1] == 0x01 && data[2] == 0x00 && data[3] == 0x00 {
        assert(data@ =~= seq![0x00u8, 0x01u8, 0x00u8, 0x00u8]);
        return Ok(AapEvent::Disconnected);
    }
    if data[0] == 0x01 && data[1] == 0x00 && data[2] == 0x04 && data[3] == 0x00 {
        return Ok(AapEvent::HandshakeAck);
    }
    if len < 6 {
        return Err(ParseError::TooShort(len));
    }
    if !(data[0] == 0x04 && data[1] == 0x00 && data[2] == 0x04 && data[3] == 0x00) {
        return Err(ParseError::UnknownCommand(data[0]));
    }
    let cmd = data[4];
    let payload = slice_subrange(data, 6, len);
    assert(payload@ == data@.skip(6));
    if cmd == CMD_FEATURES_ACK {
        Ok(AapEvent::FeaturesAck)
    } else if cmd == CMD_BATTERY {
        parse_battery(payload)
    } else if cmd == CMD_EAR_DETECTION {
        parse_ear_detection(payload)
    } else if cmd == CMD_CONTROL {
        parse_control(payload)
    } else if cmd == CMD_AUDIO_SOURCE {
        parse_audio_source(payload)
    } else if cmd == CMD_HEAD_TRACKING {
        Ok(AapEvent::HeadTracking(slice_to_vec(payload)))
    } else if cmd == CMD_DEVICE_INFO {
        parse_device_info(data)
    } else if cmd == CMD_CA_ACTIVITY {
        parse_ca_activity(payload)
    } else {
        Err(ParseError::UnknownCommand(cmd))
    }
}

/// Parse a battery notification payload (after the 6-byte header).
/// Format: `[count]` then repeating 5-byte entries
/// `[component, 0x01, level, status, 0x01]`.
pub fn parse_battery(payload: &[u8]) -> (r: Result<AapEvent, ParseError>)
    ensures
        outcome(r) == spec_parse_battery(payload@),
{
    if payload.len() == 0 {
        return Err(ParseError::TooShort(0));
    }
    let count = payload[0] as usize;
    let entries = slice_subrange(payload, 1, payload.len());
    assert(entries@ == payload@.skip(1));
    if entries.len() < count * 5 {
        return Err(ParseError::TooShort(entries.len()));
    }
    let mut update = BatteryUpdate { left: None, right: None, case: None };
    let mut i: usize = 0;
    while i < count
        invariant
            i <= count,
            count <= 255,
            count * 5 <= entries@.len(),
            update == battery_after(entries@, i as nat),
        decreases count - i,
    {
        let offset = i * 5;
        let component_byte = entries[offset];
        let level = entries[offset + 2];
        let status = ChargingStatus::from_byte(entries[offset + 3]);
        let entry = BatteryEntry {
            level,
            charging: matches!(status, Some(ChargingStatus::Charging)),
            connected: !matches!(status, Some(ChargingStatus::Disconnected)),
        };
        assert(entry == battery_entry(entries@[offset + 2], entries@[offset + 3]));
        match BatteryComponent::from_byte(component_byte) {
            Some(BatteryComponent::Headphones) => {
                // A single battery (AirPods Max) is shown on both sides.
                update.left = Some(entry);
                update.right = Some(entry);
            },
            Some(BatteryComponent::Left) => update.left = Some(entry),
            Some(BatteryComponent::Right) => update.right = Some(entry),
            Some(BatteryComponent::Case) => update.case = Some(entry),
            None => {},
        }
        i = i + 1;
    }
    Ok(AapEvent::Battery(update))
}

/// Parse an ear detection payload (after the 6-byte header).
/// Format: `[primary_status, secondary_status]`.
pub fn parse_ear_detection(payload: &[u8]) -> (r: Result<AapEvent, ParseError>)
    ensures
        outcome(r) == spec_parse_ear_detection(payload@),
{
    if payload.len() < 2 {
        return Err(ParseError::TooShort(payload.len()));
    }
    let primary = match EarStatus::from_byte(payload[0]) {
        Some(s) => s,
        None => return Err(ParseError::InvalidData),
    };
    let secondary = match EarStatus::from_byte(payload[1]) {
        Some(s) => s,
        None => return Err(ParseError::InvalidData),
    };
    Ok(AapEvent::EarDetection(EarDetectionUpdate { primary, secondary }))
}

/// Parse a control command payload (after the 6-byte header).
/// Format: `[sub_cmd, value, 0x00, 0x00, 0x00]`.
pub fn parse_control(payload: &[u8]) -> (r: Result<AapEvent, ParseError>)
    ensures
        outcome(r) == spec_parse_control(payload@),
{
    if payload.len() < 2 {
        return Err(ParseError::TooShort(payload.len()));
    }
    let sub_cmd = payload[0];
    let value = payload[1];
    if sub_cmd == SUB_ANC_MODE {
        match AncMode::from_byte(value) {
            Some(mode) => Ok(AapEvent::AncMode(mode)),
            None => Err(ParseError::InvalidData),
        }
    } else if sub_cmd == SUB_CONVERSATIONAL_AWARENESS {
        Ok(AapEvent::ConversationalAwareness(value == 0x01))
    } else if sub_cmd == SUB_ADAPTIVE_NOISE_LEVEL {
        Ok(AapEvent::AdaptiveNoiseLevel(value))
    } else if sub_cmd == SUB_ONE_BUD_ANC {
        Ok(AapEvent::OneBudAnc(value == 0x01))
    } else if sub_cmd == SUB_VOLUME_SWIPE {
        Ok(AapEvent::VolumeSwipe(value == 0x01))
    } else if sub_cmd == SUB_ADAPTIVE_VOLUME {
        Ok(AapEvent::AdaptiveVolume(value == 0x01))
    } else if sub_cmd == SUB_CHIME_VOLUME {
        Ok(AapEvent::ChimeVolume(value))
    } else {
        Err(ParseError::UnknownCommand(sub_cmd))
    }
}

/// Parse a device info packet (the whole packet).
/// Format: header(5) + unknown(6) + zero-terminated strings.
pub fn parse_device_info(data: &[u8]) -> (r: Result<AapEvent, ParseError>)
    ensures
        outcome(r) == spec_parse_device_info(data@),
{
    if data.len() < 12 {
        return Err(ParseError::TooShort(data.len()));
    }
    let tail = slice_subrange(data, 11, data.len());
    assert(tail@ == data@.skip(11));
    let fields = split_fields(tail);
    let ghost field_views = byte_vec_views(fields@);
    let mut texts: Vec<String> = Vec::new();
    let mut i: usize = 0;
    while i < fields.len()
        invariant
            i <= fields@.len(),
            field_views == byte_vec_views(fields@),
            texts@.len() == i,
            forall|j: int| 0 <= j < i ==> #[trigger] texts@[j]@ == utf8_lossy(field_views[j]),
        decreases fields@.len() - i,
    {
        let text = decode_utf8_lossy(fields[i].as_slice());
        texts.push(text);
        i = i + 1;
    }
    let info = DeviceInfoUpdate::from_texts(&texts);
    assert(string_views(texts@) =~= device_info_texts(data@));
    Ok(AapEvent::DeviceInfo(info))
}

/// The contents of a sequence of strings.
pub open spec fn string_views(v: Seq<String>) -> Seq<Seq<char>> {
    v.map_values(|s: String| s@)
}

impl DeviceInfoUpdate {
    /// The device information that decoded texts give, in the order name,
    /// model, manufacturer, serial, firmware; a missing text is empty.
    pub fn from_texts(texts: &Vec<String>) -> (r: DeviceInfoUpdate)
        ensures
            r@ == device_info_of(string_views(texts@)),
    {
        let name = if texts.len() > 0 { texts[0].clone() } else { String::new() };
        let model = if texts.len() > 1 { texts[1].clone() } else { String::new() };
        let manufacturer = if texts.len() > 2 { texts[2].clone() } else { String::new() };
        let serial = if texts.len() > 3 { texts[3].clone() } else { String::new() };
        let firmware = if texts.len() > 4 { texts[4].clone() } else { String::new() };
        DeviceInfoUpdate { name, model, manufacturer, serial, firmware }
    }
}

/// Parse an audio source notification payload (command 0x0E).
/// Format (after the header): `[source_type, ...]`.
pub fn parse_audio_source(payload: &[u8]) -> (r: Result<AapEvent, ParseError>)
    ensures
        outcome(r) == spec_parse_audio_source(payload@),
{
    if payload.len() == 0 {
        return Err(ParseError::TooShort(0));
    }
    let source = match payload[0] {
        0x00 => AudioSource::NoSource,
        0x01 => AudioSource::Call,
        0x02 => AudioSource::Media,
        other => AudioSource::Unknown(other),
    };
    Ok(AapEvent::AudioSource(source))
}

/// Parse a conversational awareness activity payload (command 0x4B).
/// Format (after the header): `[0x02, 0x00, 0x01, level]`.
pub fn parse_ca_activity(payload: &[u8]) -> (r: Result<AapEvent, ParseError>)
    ensures
        outcome(r) == spec_parse_ca_activity(payload@),
{
    if payload.len() < 4 {
        return Err(ParseError::TooShort(payload.len()));
    }
    let level = payload[3];
    let activity = match level {
        0x01 | 0x02 => CaActivity::Speaking,
        0x03 => CaActivity::Stopped,
        _ => CaActivity::Normal,
    };
    Ok(AapEvent::ConversationalActivity(activity))
}

// ---------------------------------------------------------------------------
// Commands that the protocol defines but that carry no event.
// ---------------------------------------------------------------------------

/// Commands that the protocol defines and that the parser answers with
/// `UnknownCommand` on purpose: capabilities, stem presses, smart routing,
/// connected devices, EQ data and a few undocumented ones.
pub open spec fn spec_is_known_unhandled_command(cmd: u8) -> bool {
    ||| cmd == CMD_STEM_PRESS
    ||| cmd == CMD_CONNECTED_DEVICES
    ||| cmd == CMD_EQ_DATA
    ||| cmd == 0x02
    ||| cmd == 0x08
    ||| cmd == 0x0C
    ||| cmd == 0x10
    ||| cmd == 0x11
    ||| cmd == 0x12
    ||| cmd == 0x14
    ||| cmd == 0x4E
    ||| cmd == 0x52
    ||| cmd == 0x55
}

/// Control sub-commands that the protocol defines and that the parser
/// answers with `UnknownCommand` on purpose.
pub open spec fn spec_is_known_unhandled_control(sub: u8) -> bool {
    ||| sub == SUB_DOUBLE_CLICK_INTERVAL
    ||| sub == SUB_CLICK_HOLD_INTERVAL
    ||| sub == SUB_VOLUME_SWIPE_INTERVAL
    ||| sub == SUB_CALL_MANAGEMENT
    ||| sub == SUB_SSL
    ||| sub == SUB_HEARING_AID
    ||| sub == SUB_GAIN_SWIPE
    ||| sub == SUB_HEARING_ASSIST
    ||| sub == SUB_SLEEP_DETECTION
    ||| sub == SUB_UPLINK_EQ_BUD
}

/// Whether `cmd` is a command that the protocol defines but that carries no
/// event; a caller that logs refusals may log these quietly.
pub fn is_known_unhandled_command(cmd: u8) -> (r: bool)
    ensures
        r == spec_is_known_unhandled_command(cmd),
{
    cmd == CMD_STEM_PRESS || cmd == CMD_CONNECTED_DEVICES || cmd == CMD_EQ_DATA || cmd == 0x02
        || cmd == 0x08 || cmd == 0x0C || cmd == 0x10 || cmd == 0x11 || cmd == 0x12 || cmd == 0x14
        || cmd == 0x4E || cmd == 0x52 || cmd == 0x55
}

/// Whether `sub` is a control sub-command that the protocol defines but that
/// carries no event.
pub fn is_known_unhandled_control(sub: u8) -> (r: bool)
    ensures
        r == spec_is_known_unhandled_control(sub),
{
    sub == SUB_DOUBLE_CLICK_INTERVAL || sub == SUB_CLICK_HOLD_INTERVAL
        || sub == SUB_VOLUME_SWIPE_INTERVAL || sub == SUB_CALL_MANAGEMENT || sub == SUB_SSL
        || sub == SUB_HEARING_AID || sub == SUB_GAIN_SWIPE || sub == SUB_HEARING_ASSIST
        || sub == SUB_SLEEP_DETECTION || sub == SUB_UPLINK_EQ_BUD
}

} // verus!
