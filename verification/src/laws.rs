//! Properties of the parser that hold of every packet.

use vstd::prelude::*;
use crate::parser::battery_after;
use crate::parser::battery_entry;
use crate::parser::has_control_header;
use crate::parser::has_handshake_prefix;
use crate::parser::is_disconnect_packet;
use crate::parser::is_handled_command;
use crate::parser::is_handled_control;
use crate::parser::spec_is_known_unhandled_command;
use crate::parser::spec_is_known_unhandled_control;
use crate::parser::spec_parse;
use crate::parser::AapEventModel;
use crate::parser::AudioSource;
use crate::parser::BatteryEntry;
use crate::parser::CaActivity;
use crate::parser::EarDetectionUpdate;
use crate::parser::ParseError;
use crate::protocol::AncMode;
use crate::protocol::MicMode;
use crate::protocol::CMD_FEATURES_ACK;
use crate::protocol::BatteryComponent;
use crate::protocol::EarStatus;
use crate::protocol::CMD_AUDIO_SOURCE;
use crate::protocol::CMD_CA_ACTIVITY;
use crate::protocol::CMD_EAR_DETECTION;
use crate::protocol::SUB_ADAPTIVE_NOISE_LEVEL;
use crate::protocol::SUB_CHIME_VOLUME;
use crate::protocol::CMD_BATTERY;
use crate::protocol::CMD_CONTROL;
use crate::protocol::CMD_HEAD_TRACKING;
use crate::protocol::SUB_ADAPTIVE_VOLUME;
use crate::protocol::SUB_ANC_MODE;
use crate::protocol::SUB_CONVERSATIONAL_AWARENESS;
use crate::protocol::SUB_ONE_BUD_ANC;
use crate::protocol::SUB_VOLUME_SWIPE;
use crate::text::nonempty_fields;
use crate::text::utf8_lossy;
use crate::protocol::CMD_DEVICE_INFO;

verus! {

/// A packet of fewer than four bytes is refused as too short, with its length.
pub proof fn lemma_short_packet_refused(d: Seq<u8>)
    requires
        d.len() < 4,
    ensures
        spec_parse(d) == Err::<AapEventModel, ParseError>(ParseError::TooShort(d.len() as usize)),
{
}

/// A packet is read as a disconnection exactly when it is the sentinel
/// `00 01 00 00`.
pub proof fn lemma_disconnect_iff_sentinel(d: Seq<u8>)
    ensures
        spec_parse(d) == Ok::<AapEventModel, ParseError>(AapEventModel::Disconnected)
            <==> is_disconnect_packet(d),
{
    if is_disconnect_packet(d) {
        assert(d.len() == 4);
    }
}

/// Every packet that starts `01 00 04 00` is a handshake acknowledgement,
/// whatever follows.
pub proof fn lemma_handshake_prefix(d: Seq<u8>)
    requires
        has_handshake_prefix(d),
    ensures
        spec_parse(d) == Ok::<AapEventModel, ParseError>(AapEventModel::HandshakeAck),
{
    if is_disconnect_packet(d) {
        assert(d[0] == 0x00);
    }
}

/// A packet of six or more bytes that is neither a handshake acknowledgement
/// nor a control packet is refused, naming its first byte.
pub proof fn lemma_foreign_frame_refused(d: Seq<u8>)
    requires
        d.len() >= 6,
        !has_handshake_prefix(d),
        !has_control_header(d),
    ensures
        spec_parse(d) == Err::<AapEventModel, ParseError>(ParseError::UnknownCommand(d[0])),
{
}

/// A control packet whose command the parser does not handle is refused,
/// naming the command.
pub proof fn lemma_unhandled_command_refused(d: Seq<u8>)
    requires
        d.len() >= 6,
        has_control_header(d),
        !is_handled_command(d[4]),
    ensures
        spec_parse(d) == Err::<AapEventModel, ParseError>(ParseError::UnknownCommand(d[4])),
{
    if is_disconnect_packet(d) {
        assert(d[0] == 0x00);
    }
}

/// A control command whose sub-command the parser does not handle is
/// refused, naming the sub-command.
pub proof fn lemma_unhandled_control_refused(d: Seq<u8>)
    requires
        d.len() >= 8,
        has_control_header(d),
        d[4] == CMD_CONTROL,
        !is_handled_control(d[6]),
    ensures
        spec_parse(d) == Err::<AapEventModel, ParseError>(ParseError::UnknownCommand(d[6])),
{
    if is_disconnect_packet(d) {
        assert(d[0] == 0x00);
    }
    assert(d.skip(6)[0] == d[6]);
}

/// A control packet carrying a command, or a control sub-command, that the
/// protocol defines without an event is refused, naming that command or
/// sub-command.
pub proof fn lemma_known_unhandled_refused(d: Seq<u8>)
    requires
        d.len() >= 6,
        has_control_header(d),
    ensures
        spec_is_known_unhandled_command(d[4]) ==> spec_parse(d) == Err::<AapEventModel, ParseError>(
            ParseError::UnknownCommand(d[4]),
        ),
        d.len() >= 8 && d[4] == CMD_CONTROL && spec_is_known_unhandled_control(d[6])
            ==> spec_parse(d) == Err::<AapEventModel, ParseError>(ParseError::UnknownCommand(d[6])),
{
    if spec_is_known_unhandled_command(d[4]) {
        lemma_unhandled_command_refused(d);
    }
    if d.len() >= 8 && d[4] == CMD_CONTROL && spec_is_known_unhandled_control(d[6]) {
        lemma_unhandled_control_refused(d);
    }
}

/// Every ANC mode is read back from a control packet that carries its byte,
/// and an ANC packet whose byte names no mode is refused as invalid.
pub proof fn lemma_anc_mode_packet(d: Seq<u8>, m: AncMode)
    requires
        d.len() >= 8,
        has_control_header(d),
        d[4] == CMD_CONTROL,
        d[6] == SUB_ANC_MODE,
    ensures
        d[7] == m.spec_to_byte() ==> spec_parse(d) == Ok::<AapEventModel, ParseError>(
            AapEventModel::AncMode(m),
        ),
        AncMode::spec_from_byte(d[7]) is None ==> spec_parse(d) == Err::<AapEventModel, ParseError>(
            ParseError::InvalidData,
        ),
{
    if is_disconnect_packet(d) {
        assert(d[0] == 0x00);
    }
    assert(d.skip(6)[0] == d[6]);
    assert(d.skip(6)[1] == d[7]);
}

/// A head tracking event carries every byte after the six-byte header,
/// unchanged.
pub proof fn lemma_head_tracking_payload(d: Seq<u8>)
    requires
        d.len() >= 6,
        has_control_header(d),
        d[4] == CMD_HEAD_TRACKING,
    ensures
        spec_parse(d) == Ok::<AapEventModel, ParseError>(
            AapEventModel::HeadTracking(d.subrange(6, d.len() as int)),
        ),
{
    if is_disconnect_packet(d) {
        assert(d[0] == 0x00);
    }
    assert(d.skip(6) =~= d.subrange(6, d.len() as int));
}

/// A battery entry shows its level byte, is charging exactly when its
/// status byte is `0x01`, and is connected unless its status byte is `0x04`.
pub proof fn lemma_battery_entry_flags(level: u8, status: u8)
    ensures
        battery_entry(level, status).level == level,
        battery_entry(level, status).charging <==> status == 0x01,
        battery_entry(level, status).connected <==> status != 0x04,
{
}

/// A toggle setting (conversational awareness, one-bud ANC, volume swipe,
/// adaptive volume) reads as enabled exactly when its value byte is `0x01`.
pub proof fn lemma_toggle_enabled_iff_one(d: Seq<u8>)
    requires
        d.len() >= 8,
        has_control_header(d),
        d[4] == CMD_CONTROL,
    ensures
        d[6] == SUB_CONVERSATIONAL_AWARENESS ==> spec_parse(d) == Ok::<AapEventModel, ParseError>(
            AapEventModel::ConversationalAwareness(d[7] == 0x01),
        ),
        d[6] == SUB_ONE_BUD_ANC ==> spec_parse(d) == Ok::<AapEventModel, ParseError>(
            AapEventModel::OneBudAnc(d[7] == 0x01),
        ),
        d[6] == SUB_VOLUME_SWIPE ==> spec_parse(d) == Ok::<AapEventModel, ParseError>(
            AapEventModel::VolumeSwipe(d[7] == 0x01),
        ),
        d[6] == SUB_ADAPTIVE_VOLUME ==> spec_parse(d) == Ok::<AapEventModel, ParseError>(
            AapEventModel::AdaptiveVolume(d[7] == 0x01),
        ),
{
    if is_disconnect_packet(d) {
        assert(d[0] == 0x00);
    }
    assert(d.skip(6)[0] == d[6]);
    assert(d.skip(6)[1] == d[7]);
}

/// A battery entry for the headphones (a single battery, as on AirPods Max)
/// is shown on both sides and leaves the case as it was.
pub proof fn lemma_headphones_battery_mirrored(entries: Seq<u8>, k: nat)
    requires
        k >= 1,
        entries.len() >= 5 * k,
        entries[5 * (k - 1)] == BatteryComponent::Headphones.spec_to_byte(),
    ensures
        ({
            let o = 5 * (k - 1);
            let e = battery_entry(entries[o + 2], entries[o + 3]);
            let u = battery_after(entries, k);
            &&& u.left == Some(e)
            &&& u.right == Some(e)
            &&& u.case == battery_after(entries, (k - 1) as nat).case
        }),
{
}

/// A battery entry whose component byte names no component changes nothing.
pub proof fn lemma_unknown_battery_component_ignored(entries: Seq<u8>, k: nat)
    requires
        k >= 1,
        entries.len() >= 5 * k,
        BatteryComponent::spec_from_byte(entries[5 * (k - 1)]) is None,
    ensures
        battery_after(entries, k) == battery_after(entries, (k - 1) as nat),
{
}

/// A battery notification whose length is exactly what its count announces
/// is read, and every shorter prefix of it that still holds the six-byte
/// header is refused as too short.
pub proof fn lemma_truncated_battery_refused(p: Seq<u8>, n: int)
    requires
        p.len() >= 7,
        has_control_header(p),
        p[4] == CMD_BATTERY,
        p.len() == 7 + 5 * p[6],
        6 <= n < p.len(),
    ensures
        spec_parse(p) is Ok,
        spec_parse(p.take(n)) is Err,
        spec_parse(p.take(n)) matches Err(ParseError::TooShort(_)),
{
    let q = p.take(n);
    if is_disconnect_packet(p) {
        assert(p[0] == 0x00);
    }
    if is_disconnect_packet(q) {
        assert(q[0] == 0x00);
    }
    assert(p.skip(6)[0] == p[6]);
    assert(p.skip(6).skip(1).len() == p.len() - 7);
    if n > 6 {
        assert(q.skip(6)[0] == p[6]);
        assert(q.skip(6).skip(1).len() == n - 7);
    } else {
        assert(q.skip(6).len() == 0);
    }
}

/// Every field of a device info packet is non-empty and holds no zero byte.
pub proof fn lemma_fields_nonempty_and_zero_free(s: Seq<u8>)
    ensures
        forall|i: int|
            0 <= i < nonempty_fields(s).len() ==> {
                &&& (#[trigger] nonempty_fields(s)[i]).len() > 0
                &&& forall|j: int|
                    0 <= j < nonempty_fields(s)[i].len() ==> nonempty_fields(s)[i][j] != 0
            },
    decreases s.len(),
{
    if s.len() > 0 {
        lemma_fields_nonempty_and_zero_free(s.drop_last());
        let prev = nonempty_fields(s.drop_last());
        let f = nonempty_fields(s);
        if s.last() != 0 {
            if s.len() >= 2 && s[s.len() - 2] != 0 {
                assert(prev.len() > 0) by {
                    lemma_field_open_at_end(s.drop_last());
                }
                assert forall|i: int| 0 <= i < f.len() implies {
                    &&& (#[trigger] f[i]).len() > 0
                    &&& forall|j: int| 0 <= j < f[i].len() ==> f[i][j] != 0
                } by {
                    if i < f.len() - 1 {
                        assert(f[i] == prev[i]);
                    } else {
                        assert(f[i] == prev.last().push(s.last()));
                        assert(prev.last() == prev[prev.len() - 1]);
                    }
                }
            } else {
                assert forall|i: int| 0 <= i < f.len() implies {
                    &&& (#[trigger] f[i]).len() > 0
                    &&& forall|j: int| 0 <= j < f[i].len() ==> f[i][j] != 0
                } by {
                    if i < f.len() - 1 {
                        assert(f[i] == prev[i]);
                    }
                }
            }
        }
    }
}

/// A sequence that ends in a non-zero byte has at least one field.
proof fn lemma_field_open_at_end(s: Seq<u8>)
    requires
        s.len() > 0,
        s.last() != 0,
    ensures
        nonempty_fields(s).len() > 0,
{
}

/// The adaptive noise level and the chime volume are the value byte of
/// their control packet, unchanged, whatever that byte is.
pub proof fn lemma_level_settings_carry_value(d: Seq<u8>)
    requires
        d.len() >= 8,
        has_control_header(d),
        d[4] == CMD_CONTROL,
    ensures
        d[6] == SUB_ADAPTIVE_NOISE_LEVEL ==> spec_parse(d) == Ok::<AapEventModel, ParseError>(
            AapEventModel::AdaptiveNoiseLevel(d[7]),
        ),
        d[6] == SUB_CHIME_VOLUME ==> spec_parse(d) == Ok::<AapEventModel, ParseError>(
            AapEventModel::ChimeVolume(d[7]),
        ),
{
    if is_disconnect_packet(d) {
        assert(d[0] == 0x00);
    }
    assert(d.skip(6)[0] == d[6]);
    assert(d.skip(6)[1] == d[7]);
}

/// An ear detection packet is read exactly when both of its status bytes
/// name a status, and then each pod's status is the one whose byte was
/// sent: the primary from byte 6, the secondary from byte 7, decoded alike.
pub proof fn lemma_ear_detection_reads_both_bytes(d: Seq<u8>)
    requires
        d.len() >= 8,
        has_control_header(d),
        d[4] == CMD_EAR_DETECTION,
    ensures
        spec_parse(d) is Ok <==> d[6] <= 0x02 && d[7] <= 0x02,
        !(d[6] <= 0x02 && d[7] <= 0x02) ==> spec_parse(d) == Err::<AapEventModel, ParseError>(
            ParseError::InvalidData,
        ),
        spec_parse(d) matches Ok(AapEventModel::EarDetection(u)) ==> u.primary.spec_to_byte()
            == d[6] && u.secondary.spec_to_byte() == d[7],
        spec_parse(d) is Ok ==> spec_parse(d)->Ok_0 is EarDetection,
{
    if is_disconnect_packet(d) {
        assert(d[0] == 0x00);
    }
    assert(d.skip(6)[0] == d[6]);
    assert(d.skip(6)[1] == d[7]);
}

/// Swapping the two status bytes of an ear detection packet swaps the two
/// statuses.
pub proof fn lemma_ear_detection_symmetric(d: Seq<u8>, s1: EarStatus, s2: EarStatus)
    requires
        d.len() >= 8,
        has_control_header(d),
        d[4] == CMD_EAR_DETECTION,
        spec_parse(d) == Ok::<AapEventModel, ParseError>(
            AapEventModel::EarDetection(EarDetectionUpdate { primary: s1, secondary: s2 }),
        ),
    ensures
        spec_parse(d.update(6, d[7]).update(7, d[6])) == Ok::<AapEventModel, ParseError>(
            AapEventModel::EarDetection(EarDetectionUpdate { primary: s2, secondary: s1 }),
        ),
{
    let e = d.update(6, d[7]).update(7, d[6]);
    if is_disconnect_packet(d) {
        assert(d[0] == 0x00);
    }
    if is_disconnect_packet(e) {
        assert(e[0] == 0x00);
    }
    assert(d.skip(6)[0] == d[6]);
    assert(d.skip(6)[1] == d[7]);
    assert(e.skip(6)[0] == d[7]);
    assert(e.skip(6)[1] == d[6]);
}

/// The audio source is `NoSource`, `Call` or `Media` for bytes 0, 1 and 2,
/// and `Unknown` carrying the byte itself for every other byte.
pub proof fn lemma_audio_source_byte(d: Seq<u8>)
    requires
        d.len() >= 7,
        has_control_header(d),
        d[4] == CMD_AUDIO_SOURCE,
    ensures
        d[6] == 0x00 ==> spec_parse(d) == Ok::<AapEventModel, ParseError>(
            AapEventModel::AudioSource(AudioSource::NoSource),
        ),
        d[6] == 0x01 ==> spec_parse(d) == Ok::<AapEventModel, ParseError>(
            AapEventModel::AudioSource(AudioSource::Call),
        ),
        d[6] == 0x02 ==> spec_parse(d) == Ok::<AapEventModel, ParseError>(
            AapEventModel::AudioSource(AudioSource::Media),
        ),
        d[6] > 0x02 ==> spec_parse(d) == Ok::<AapEventModel, ParseError>(
            AapEventModel::AudioSource(AudioSource::Unknown(d[6])),
        ),
{
    if is_disconnect_packet(d) {
        assert(d[0] == 0x00);
    }
    assert(d.skip(6)[0] == d[6]);
}

/// A conversational activity packet is read from its level byte (offset 9)
/// alone: levels 1 and 2 are speaking, 3 is stopped, every other level is
/// normal; bytes 6 to 8 do not matter.
pub proof fn lemma_ca_activity_level(d: Seq<u8>)
    requires
        d.len() >= 10,
        has_control_header(d),
        d[4] == CMD_CA_ACTIVITY,
    ensures
        (d[9] == 0x01 || d[9] == 0x02) ==> spec_parse(d) == Ok::<AapEventModel, ParseError>(
            AapEventModel::ConversationalActivity(CaActivity::Speaking),
        ),
        d[9] == 0x03 ==> spec_parse(d) == Ok::<AapEventModel, ParseError>(
            AapEventModel::ConversationalActivity(CaActivity::Stopped),
        ),
        (d[9] == 0x00 || d[9] > 0x03) ==> spec_parse(d) == Ok::<AapEventModel, ParseError>(
            AapEventModel::ConversationalActivity(CaActivity::Normal),
        ),
{
    if is_disconnect_packet(d) {
        assert(d[0] == 0x00);
    }
    assert(d.skip(6)[3] == d[9]);
}

/// A battery report only reads the bytes of its first `k` entries.
proof fn lemma_battery_after_reads_prefix(e1: Seq<u8>, e2: Seq<u8>, k: nat)
    requires
        e1.len() >= 5 * k,
        e2.len() >= 5 * k,
        forall|i: int| 0 <= i < 5 * k ==> e1[i] == e2[i],
    ensures
        battery_after(e1, k) == battery_after(e2, k),
    decreases k,
{
    if k > 0 {
        lemma_battery_after_reads_prefix(e1, e2, (k - 1) as nat);
        let o = 5 * (k - 1);
        assert(e1[o] == e2[o]);
        assert(e1[o + 2] == e2[o + 2]);
        assert(e1[o + 3] == e2[o + 3]);
    }
}

/// The battery packet `p` with its last announced entry taken off and its
/// count lowered by one.
pub open spec fn without_last_battery_entry(p: Seq<u8>) -> Seq<u8> {
    p.take(7 + 5 * (p[6] - 1)).update(6, (p[6] - 1) as u8)
}

/// The last entry of a battery notification decides the battery it names,
/// for every status byte: a left (0x04), right (0x02) or case (0x08) entry
/// sets that battery to its level, charging exactly when the status is
/// 0x01 and connected unless it is 0x04; a headphones entry (0x01) sets both
/// left and right; any other component byte changes nothing. Every battery
/// that the entry does not name is as the report without that entry gives it.
pub proof fn lemma_last_battery_entry_decides(p: Seq<u8>)
    requires
        p.len() >= 7,
        has_control_header(p),
        p[4] == CMD_BATTERY,
        p[6] >= 1,
        p.len() >= 7 + 5 * p[6],
    ensures
        ({
            let o = 7 + 5 * (p[6] - 1);
            let e = BatteryEntry {
                level: p[o + 2],
                charging: p[o + 3] == 0x01,
                connected: p[o + 3] != 0x04,
            };
            let q = without_last_battery_entry(p);
            &&& spec_parse(p) is Ok
            &&& spec_parse(q) is Ok
            &&& spec_parse(p)->Ok_0 is Battery
            &&& spec_parse(q)->Ok_0 is Battery
            &&& ({
                let u = spec_parse(p)->Ok_0->Battery_0;
                let v = spec_parse(q)->Ok_0->Battery_0;
                &&& p[o] == 0x04 ==> u.left == Some(e) && u.right == v.right && u.case == v.case
                &&& p[o] == 0x02 ==> u.right == Some(e) && u.left == v.left && u.case == v.case
                &&& p[o] == 0x08 ==> u.case == Some(e) && u.left == v.left && u.right == v.right
                &&& p[o] == 0x01 ==> u.left == Some(e) && u.right == Some(e) && u.case == v.case
                &&& (p[o] != 0x01 && p[o] != 0x02 && p[o] != 0x04 && p[o] != 0x08) ==> u == v
            })
        }),
{
    let c = p[6];
    let q = without_last_battery_entry(p);
    if is_disconnect_packet(p) {
        assert(p[0] == 0x00);
    }
    if is_disconnect_packet(q) {
        assert(q[0] == 0x00);
    }
    assert(q.len() == 7 + 5 * (c - 1));
    assert(q[6] == c - 1);
    assert(p.skip(6)[0] == c);
    assert(q.skip(6)[0] == c - 1);
    let ep = p.skip(6).skip(1);
    let eq = q.skip(6).skip(1);
    assert(ep.len() == p.len() - 7);
    assert(eq.len() == 5 * (c - 1));
    assert forall|i: int| 0 <= i < 5 * (c - 1) implies ep[i] == eq[i] by {
        assert(ep[i] == p[i + 7]);
        assert(eq[i] == q[i + 7]);
    }
    lemma_battery_after_reads_prefix(ep, eq, (c - 1) as nat);
    let o = 7 + 5 * (c - 1);
    assert(ep[o - 7] == p[o]);
    assert(ep[o - 7 + 2] == p[o + 2]);
    assert(ep[o - 7 + 3] == p[o + 3]);
}

/// A non-empty run of non-zero bytes is a single field.
proof fn lemma_fields_of_run(n: Seq<u8>)
    requires
        n.len() > 0,
        forall|j: int| 0 <= j < n.len() ==> n[j] != 0,
    ensures
        nonempty_fields(n) == seq![n],
    decreases n.len(),
{
    let m = n.drop_last();
    if n.len() == 1 {
        assert(m =~= Seq::<u8>::empty());
        assert(nonempty_fields(m) == Seq::<Seq<u8>>::empty());
        assert(seq![n.last()] =~= n);
        assert(nonempty_fields(n) == Seq::<Seq<u8>>::empty().push(seq![n.last()]));
        assert(Seq::<Seq<u8>>::empty().push(n) =~= seq![n]);
    } else {
        lemma_fields_of_run(m);
        assert(n[n.len() - 2] != 0);
        assert(m.push(n.last()) =~= n);
        let prev = seq![m];
        assert(prev.last() == m);
        assert(prev.drop_last() =~= Seq::<Seq<u8>>::empty());
        assert(nonempty_fields(n) == prev.drop_last().push(prev.last().push(n.last())));
        assert(Seq::<Seq<u8>>::empty().push(n) =~= seq![n]);
    }
}

/// Splitting at zero bytes distributes over a concatenation whose first
/// part is empty or ends in a zero byte.
proof fn lemma_fields_concat(a: Seq<u8>, b: Seq<u8>)
    requires
        a.len() == 0 || a.last() == 0,
    ensures
        nonempty_fields(a + b) == nonempty_fields(a) + nonempty_fields(b),
    decreases b.len(),
{
    if b.len() == 0 {
        assert(a + b =~= a);
        assert(nonempty_fields(a) + Seq::<Seq<u8>>::empty() =~= nonempty_fields(a));
    } else {
        let ab = a + b;
        let b0 = b.drop_last();
        lemma_fields_concat(a, b0);
        assert(ab.drop_last() =~= a + b0);
        assert(ab.last() == b.last());
        let fa = nonempty_fields(a);
        let fb0 = nonempty_fields(b0);
        let x = b.last();
        if x == 0 {
        } else if b.len() >= 2 && b[b.len() - 2] != 0 {
            assert(ab[ab.len() - 2] == b[b.len() - 2]);
            lemma_field_open_at_end(b0);
            assert((fa + fb0).drop_last() =~= fa + fb0.drop_last());
            assert((fa + fb0).last() == fb0.last());
            assert((fa + fb0.drop_last()).push(fb0.last().push(x)) =~= fa + fb0.drop_last().push(
                fb0.last().push(x),
            ));
        } else {
            if ab.len() >= 2 {
                if b.len() == 1 {
                    assert(ab[ab.len() - 2] == a.last());
                } else {
                    assert(ab[ab.len() - 2] == b[b.len() - 2]);
                }
            }
            if b.len() == 1 {
                assert(b0 =~= Seq::<u8>::empty());
            }
            assert((fa + fb0).push(seq![x]) =~= fa + fb0.push(seq![x]));
        }
    }
}

/// A run of non-zero bytes closed by a zero byte is a single field.
proof fn lemma_fields_of_closed_run(n: Seq<u8>)
    requires
        n.len() > 0,
        forall|j: int| 0 <= j < n.len() ==> n[j] != 0,
    ensures
        nonempty_fields(n + seq![0u8]) == seq![n],
{
    lemma_fields_of_run(n);
    assert((n + seq![0u8]).drop_last() =~= n);
}

/// A device info packet is read from offset 11 on, and from nothing before
/// it but the header and command: two device info packets that agree from
/// offset 11 on give the same event, whatever their six unknown bytes.
pub proof fn lemma_device_info_ignores_unknown_bytes(d1: Seq<u8>, d2: Seq<u8>)
    requires
        d1.len() >= 12,
        d2.len() >= 12,
        has_control_header(d1),
        has_control_header(d2),
        d1[4] == CMD_DEVICE_INFO,
        d2[4] == CMD_DEVICE_INFO,
        d1.skip(11) == d2.skip(11),
    ensures
        spec_parse(d1) == spec_parse(d2),
        spec_parse(d1) is Ok,
{
    if is_disconnect_packet(d1) {
        assert(d1[0] == 0x00);
    }
    if is_disconnect_packet(d2) {
        assert(d2[0] == 0x00);
    }
}

/// The name and model of a device info packet are the decodings of its
/// first two zero-terminated strings from offset 11 on, each decoded whole,
/// whatever the six unknown bytes before them and whatever follows.
pub proof fn lemma_device_info_name_and_model(
    h: Seq<u8>,
    name: Seq<u8>,
    model: Seq<u8>,
    rest: Seq<u8>,
)
    requires
        h.len() == 11,
        has_control_header(h),
        h[4] == CMD_DEVICE_INFO,
        name.len() > 0,
        model.len() > 0,
        forall|j: int| 0 <= j < name.len() ==> name[j] != 0,
        forall|j: int| 0 <= j < model.len() ==> model[j] != 0,
    ensures
        ({
            let p = h + name + seq![0u8] + model + seq![0u8] + rest;
            &&& spec_parse(p) is Ok
            &&& spec_parse(p)->Ok_0 is DeviceInfo
            &&& spec_parse(p)->Ok_0->DeviceInfo_0.name == utf8_lossy(name)
            &&& spec_parse(p)->Ok_0->DeviceInfo_0.model == utf8_lossy(model)
        }),
{
    let p = h + name + seq![0u8] + model + seq![0u8] + rest;
    if is_disconnect_packet(p) {
        assert(p[0] == h[0]);
    }
    assert(p[0] == h[0] && p[1] == h[1] && p[2] == h[2] && p[3] == h[3] && p[4] == h[4]);
    let a = name + seq![0u8];
    let b = model + seq![0u8];
    assert(p.skip(11) =~= a + b + rest);
    lemma_fields_of_closed_run(name);
    lemma_fields_of_closed_run(model);
    assert((a + b).last() == 0u8);
    lemma_fields_concat(a + b, rest);
    lemma_fields_concat(a, b);
    let f = nonempty_fields(p.skip(11));
    assert(f == seq![name] + seq![model] + nonempty_fields(rest));
    assert(f[0] == name);
    assert(f[1] == model);
}

/// Zero-terminated strings laid one after another.
pub open spec fn zero_terminated(fs: Seq<Seq<u8>>) -> Seq<u8>
    decreases fs.len(),
{
    if fs.len() == 0 {
        Seq::empty()
    } else {
        zero_terminated(fs.drop_last()) + fs.last() + seq![0u8]
    }
}

/// Every string is non-empty and holds no zero byte.
pub open spec fn all_plain_strings(fs: Seq<Seq<u8>>) -> bool {
    forall|i: int|
        0 <= i < fs.len() ==> (#[trigger] fs[i]).len() > 0 && forall|j: int|
            0 <= j < fs[i].len() ==> fs[i][j] != 0
}

/// Splitting zero-terminated strings at their zero bytes gives the strings
/// back.
proof fn lemma_split_zero_terminated(fs: Seq<Seq<u8>>)
    requires
        all_plain_strings(fs),
    ensures
        nonempty_fields(zero_terminated(fs)) == fs,
    decreases fs.len(),
{
    if fs.len() > 0 {
        let init = fs.drop_last();
        let x = fs.last();
        assert(all_plain_strings(init)) by {
            assert forall|i: int| 0 <= i < init.len() implies (#[trigger] init[i]).len() > 0
                && forall|j: int| 0 <= j < init[i].len() ==> init[i][j] != 0 by {
                assert(init[i] == fs[i]);
            }
        }
        lemma_split_zero_terminated(init);
        let z = zero_terminated(init);
        if init.len() > 0 {
            assert(z.last() == 0u8);
        }
        assert(fs[fs.len() - 1] == x);
        assert(x.len() > 0);
        lemma_fields_of_closed_run(x);
        assert(zero_terminated(fs) =~= z + (x + seq![0u8]));
        lemma_fields_concat(z, x + seq![0u8]);
        assert(init + seq![x] =~= fs);
    }
}

/// The text that the `i`-th of the strings `fs` gives, or the empty text
/// where there is none.
pub open spec fn lossy_text_at(fs: Seq<Seq<u8>>, i: int) -> Seq<char> {
    if i < fs.len() {
        utf8_lossy(fs[i])
    } else {
        Seq::empty()
    }
}

/// A device info packet built from an 11-byte start (header, command and
/// any six unknown bytes) and zero-terminated strings reads back, in order,
/// name, model, manufacturer, serial and firmware as the decodings of the
/// first five strings, each decoded whole; a string that is not there gives
/// the empty text, and strings after the fifth are ignored.
pub proof fn lemma_device_info_strings_read_back(h: Seq<u8>, fs: Seq<Seq<u8>>)
    requires
        h.len() == 11,
        has_control_header(h),
        h[4] == CMD_DEVICE_INFO,
        fs.len() > 0,
        all_plain_strings(fs),
    ensures
        ({
            let p = h + zero_terminated(fs);
            &&& spec_parse(p) is Ok
            &&& spec_parse(p)->Ok_0 is DeviceInfo
            &&& ({
                let m = spec_parse(p)->Ok_0->DeviceInfo_0;
                &&& m.name == lossy_text_at(fs, 0)
                &&& m.model == lossy_text_at(fs, 1)
                &&& m.manufacturer == lossy_text_at(fs, 2)
                &&& m.serial == lossy_text_at(fs, 3)
                &&& m.firmware == lossy_text_at(fs, 4)
            })
        }),
{
    let p = h + zero_terminated(fs);
    assert(zero_terminated(fs).len() > 0);
    assert(p[0] == h[0] && p[1] == h[1] && p[2] == h[2] && p[3] == h[3] && p[4] == h[4]);
    if is_disconnect_packet(p) {
        assert(p[0] == h[0]);
    }
    assert(p.skip(11) =~= zero_terminated(fs));
    lemma_split_zero_terminated(fs);
}

/// A known command whose payload is too short for it is refused as too
/// short, naming how many payload bytes (after the six-byte header) there
/// were; a device info packet names its whole length.
pub proof fn lemma_short_payload_lengths(d: Seq<u8>)
    requires
        d.len() >= 6,
        has_control_header(d),
    ensures
        d[4] == CMD_BATTERY && d.len() == 6 ==> spec_parse(d) == Err::<AapEventModel, ParseError>(
            ParseError::TooShort(0),
        ),
        d[4] == CMD_BATTERY && d.len() >= 7 && d.len() < 7 + 5 * d[6] ==> spec_parse(d) == Err::<
            AapEventModel,
            ParseError,
        >(ParseError::TooShort((d.len() - 7) as usize)),
        (d[4] == CMD_EAR_DETECTION || d[4] == CMD_CONTROL) && d.len() < 8 ==> spec_parse(d)
            == Err::<AapEventModel, ParseError>(ParseError::TooShort((d.len() - 6) as usize)),
        d[4] == CMD_AUDIO_SOURCE && d.len() == 6 ==> spec_parse(d) == Err::<
            AapEventModel,
            ParseError,
        >(ParseError::TooShort(0)),
        d[4] == CMD_CA_ACTIVITY && d.len() < 10 ==> spec_parse(d) == Err::<AapEventModel, ParseError>(
            ParseError::TooShort((d.len() - 6) as usize),
        ),
        d[4] == CMD_DEVICE_INFO && d.len() < 12 ==> spec_parse(d) == Err::<AapEventModel, ParseError>(
            ParseError::TooShort(d.len() as usize),
        ),
        d[4] == CMD_FEATURES_ACK ==> spec_parse(d) == Ok::<AapEventModel, ParseError>(
            AapEventModel::FeaturesAck,
        ),
{
    if is_disconnect_packet(d) {
        assert(d[0] == 0x00);
    }
    if d.len() >= 7 {
        assert(d.skip(6)[0] == d[6]);
    }
    assert(d.skip(6).len() == d.len() - 6);
    if d.len() >= 7 {
        assert(d.skip(6).skip(1).len() == d.len() - 7);
    }
}

/// A battery report that announces no entries names no battery.
pub proof fn lemma_empty_battery_report(d: Seq<u8>)
    requires
        d.len() >= 7,
        has_control_header(d),
        d[4] == CMD_BATTERY,
        d[6] == 0,
    ensures
        spec_parse(d) is Ok,
        spec_parse(d)->Ok_0 is Battery,
        spec_parse(d)->Ok_0->Battery_0.left is None,
        spec_parse(d)->Ok_0->Battery_0.right is None,
        spec_parse(d)->Ok_0->Battery_0.case is None,
{
    if is_disconnect_packet(d) {
        assert(d[0] == 0x00);
    }
    assert(d.skip(6)[0] == d[6]);
}

/// The ANC mode that a control byte selects has the name the user sees for
/// it: byte 1 is "off", 2 "noise", 3 "transparency", 4 "adaptive".
pub proof fn lemma_anc_mode_byte_names(b: u8)
    ensures
        AncMode::spec_from_byte(b) is Some <==> 1 <= b <= 4,
        b == 1 ==> AncMode::spec_from_byte(b)->0.spec_as_str() == "off"@,
        b == 2 ==> AncMode::spec_from_byte(b)->0.spec_as_str() == "noise"@,
        b == 3 ==> AncMode::spec_from_byte(b)->0.spec_as_str() == "transparency"@,
        b == 4 ==> AncMode::spec_from_byte(b)->0.spec_as_str() == "adaptive"@,
{
}

/// The microphone mode that a byte selects has the name the user sees for
/// it: byte 0 is "auto", 1 "right", 2 "left".
pub proof fn lemma_mic_mode_byte_names(b: u8)
    ensures
        MicMode::spec_from_byte(b) is Some <==> b <= 2,
        b == 0 ==> MicMode::spec_from_byte(b)->0.spec_as_str() == "auto"@,
        b == 1 ==> MicMode::spec_from_byte(b)->0.spec_as_str() == "right"@,
        b == 2 ==> MicMode::spec_from_byte(b)->0.spec_as_str() == "left"@,
{
}

/// A pod is in the ear exactly when its status byte is 0, out of the ear
/// when it is 1 and in the case when it is 2; no other byte is a status.
pub proof fn lemma_ear_status_in_ear_byte(b: u8)
    ensures
        EarStatus::spec_from_byte(b) is Some <==> b <= 2,
        EarStatus::spec_from_byte(b) is Some ==> (EarStatus::spec_from_byte(b)->0 == EarStatus::InEar
            <==> b == 0),
        EarStatus::spec_from_byte(b) is Some ==> (EarStatus::spec_from_byte(b)->0
            == EarStatus::OutOfEar <==> b == 1),
        EarStatus::spec_from_byte(b) is Some ==> (EarStatus::spec_from_byte(b)->0 == EarStatus::InCase
            <==> b == 2),
{
}

} // verus!
