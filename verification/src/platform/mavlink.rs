//! MAVLink v1 and v2 telemetry.
//!
//! Two messages are understood: ATTITUDE (30) and GLOBAL_POSITION_INT (33).
//! Frames with a bad X.25 checksum are dropped.

use vstd::prelude::*;
use vstd::slice::slice_subrange;

use crate::bits::{F32Bits, F64Bits};
use crate::bytes::{
    read_f32_le, read_u16_le, read_u32_le, signed16, signed32, to_signed16, to_signed32, u16_le,
    u16_le_at, u16_le_roundtrip, u32_le, u32_le_at, u32_le_roundtrip,
};
use crate::config::Config;
use crate::platform::PlatformState;

verus! {

/// Message number of ATTITUDE.
pub const MSG_ATTITUDE: u32 = 30;

/// Message number of GLOBAL_POSITION_INT.
pub const MSG_GLOBAL_POSITION_INT: u32 = 33;

/// Extra checksum byte of ATTITUDE.
pub const CRC_EXTRA_ATTITUDE: u8 = 39;

/// Extra checksum byte of GLOBAL_POSITION_INT.
pub const CRC_EXTRA_GLOBAL_POSITION_INT: u8 = 104;

/// First byte of a version 1 frame.
pub const MAGIC_V1: u8 = 0xFE;

/// First byte of a version 2 frame.
pub const MAGIC_V2: u8 = 0xFD;

/// Attitude, in radians.
#[derive(Debug, Clone, Copy, PartialEq, Eq, Structural)]
pub struct AttitudeData {
    pub roll: F32Bits,
    pub pitch: F32Bits,
    pub yaw: F32Bits,
}

/// Position and velocity in the units of the wire.
#[derive(Debug, Clone, Copy, PartialEq, Eq, Structural)]
pub struct GlobalPositionInt {
    /// Latitude (1e-7 degrees).
    pub lat_dege7: i32,
    /// Longitude (1e-7 degrees).
    pub lon_dege7: i32,
    /// Altitude (mm above mean sea level).
    pub alt_mm: i32,
    /// Velocity north (cm/s).
    pub vx_cm_s: i16,
    /// Velocity east (cm/s).
    pub vy_cm_s: i16,
    /// Velocity down (cm/s).
    pub vz_cm_s: i16,
}

/// Position (rad, m) and velocity (m/s).
#[derive(Debug, Clone, Copy, PartialEq, Eq, Structural)]
pub struct GlobalPosData {
    pub lat_rad: F64Bits,
    pub lon_rad: F64Bits,
    pub alt_m: F64Bits,
    pub vel_north_m_s: F32Bits,
    pub vel_east_m_s: F32Bits,
    pub vel_down_m_s: F32Bits,
}

/// A decoded message.
#[derive(Debug, Clone, Copy, PartialEq, Eq, Structural)]
pub enum MavMsg {
    Attitude(AttitudeData),
    GlobalPositionInt(GlobalPositionInt),
}

/// A message in SI units.
#[derive(Debug, Clone, Copy, PartialEq, Eq, Structural)]
pub enum PlatformUpdate {
    Attitude(AttitudeData),
    Position(GlobalPosData),
}

// ── Checksum ───────────────────────────────────────────────────────────

/// One bit of the X.25 shift register: the reflected polynomial is 0x8408.
pub open spec fn x25_shift(crc: u16) -> u16 {
    if crc & 1 == 1 {
        (crc >> 1) ^ 0x8408
    } else {
        crc >> 1
    }
}

/// The register after one more byte.
pub open spec fn x25_step(crc: u16, byte: u8) -> u16 {
    x25_shift(x25_shift(x25_shift(x25_shift(x25_shift(x25_shift(x25_shift(x25_shift(
        crc ^ (byte as u16),
    ))))))))
}

/// The register after all of `s`, from all ones.
pub open spec fn x25_of(s: Seq<u8>) -> u16
    decreases s.len(),
{
    if s.len() == 0 {
        0xFFFF
    } else {
        x25_step(x25_of(s.drop_last()), s.last())
    }
}

/// Feeds one byte into the checksum register, eight bits at a time.
pub fn x25_crc_accumulate(crc: u16, byte: u8) -> (r: u16)
    ensures
        r == x25_step(crc, byte),
{
    let low: u8 = (crc & 0xFF) as u8;
    let mixed: u8 = byte ^ low;
    let tmp: u8 = mixed ^ (mixed << 4);
    let wide: u16 = tmp as u16;
    let r: u16 = (crc >> 8) ^ (wide << 8) ^ (wide << 3) ^ (wide >> 4);
    assert(r == x25_step(crc, byte)) by (bit_vector)
        requires
            low == (crc & 0xFF) as u8,
            mixed == byte ^ low,
            tmp == mixed ^ (mixed << 4),
            wide == tmp as u16,
            r == (crc >> 8) ^ (wide << 8) ^ (wide << 3) ^ (wide >> 4),
    ;
    r
}

/// The X.25 checksum of `data`.
pub fn x25_crc(data: &[u8]) -> (r: u16)
    ensures
        r == x25_of(data@),
{
    let mut crc: u16 = 0xFFFF;
    let mut i: usize = 0;
    while i < data.len()
        invariant
            i <= data.len(),
            crc == x25_of(data@.take(i as int)),
        decreases data.len() - i,
    {
        proof {
            assert(data@.take(i + 1).drop_last() =~= data@.take(i as int));
        }
        crc = x25_crc_accumulate(crc, data[i]);
        i = i + 1;
    }
    proof {
        assert(data@.take(i as int) =~= data@);
    }
    crc
}

/// The extra checksum byte of each message understood here.
pub open spec fn crc_extra(msg_id: u32) -> Option<u8> {
    if msg_id == MSG_ATTITUDE {
        Some(CRC_EXTRA_ATTITUDE)
    } else if msg_id == MSG_GLOBAL_POSITION_INT {
        Some(CRC_EXTRA_GLOBAL_POSITION_INT)
    } else {
        None
    }
}

/// The extra checksum byte of `msg_id`, if that message is understood.
pub fn crc_extra_for(msg_id: u32) -> (r: Option<u8>)
    ensures
        r == crc_extra(msg_id),
{
    if msg_id == MSG_ATTITUDE {
        Some(CRC_EXTRA_ATTITUDE)
    } else if msg_id == MSG_GLOBAL_POSITION_INT {
        Some(CRC_EXTRA_GLOBAL_POSITION_INT)
    } else {
        None
    }
}

// ── Payloads ───────────────────────────────────────────────────────────

/// The ATTITUDE message in a payload of at least 28 bytes: roll, pitch and yaw
/// at offsets 4, 8 and 12.
pub open spec fn attitude_in(p: Seq<u8>) -> Option<AttitudeData> {
    if p.len() < 28 {
        None
    } else {
        Some(
            AttitudeData {
                roll: F32Bits { bits: u32_le_at(p, 4) },
                pitch: F32Bits { bits: u32_le_at(p, 8) },
                yaw: F32Bits { bits: u32_le_at(p, 12) },
            },
        )
    }
}

/// The GLOBAL_POSITION_INT message in a payload of at least 28 bytes.
pub open spec fn global_position_in(p: Seq<u8>) -> Option<GlobalPositionInt> {
    if p.len() < 28 {
        None
    } else {
        Some(
            GlobalPositionInt {
                lat_dege7: signed32(u32_le_at(p, 4)),
                lon_dege7: signed32(u32_le_at(p, 8)),
                alt_mm: signed32(u32_le_at(p, 12)),
                vx_cm_s: signed16(u16_le_at(p, 20)),
                vy_cm_s: signed16(u16_le_at(p, 22)),
                vz_cm_s: signed16(u16_le_at(p, 24)),
            },
        )
    }
}

/// The message with number `msg_id` in payload `p`.
pub open spec fn message_in(msg_id: u32, p: Seq<u8>) -> Option<MavMsg> {
    if msg_id == MSG_ATTITUDE {
        match attitude_in(p) {
            Some(a) => Some(MavMsg::Attitude(a)),
            None => None,
        }
    } else if msg_id == MSG_GLOBAL_POSITION_INT {
        match global_position_in(p) {
            Some(g) => Some(MavMsg::GlobalPositionInt(g)),
            None => None,
        }
    } else {
        None
    }
}

/// Decodes an ATTITUDE payload.
pub fn decode_attitude(p: &[u8]) -> (r: Option<AttitudeData>)
    ensures
        r == attitude_in(p@),
{
    if p.len() < 28 {
        return None;
    }
    match (read_f32_le(p, 4), read_f32_le(p, 8), read_f32_le(p, 12)) {
        (Some(roll), Some(pitch), Some(yaw)) => Some(AttitudeData { roll, pitch, yaw }),
        _ => None,
    }
}

/// Decodes a GLOBAL_POSITION_INT payload.
pub fn decode_global_position_int(p: &[u8]) -> (r: Option<GlobalPositionInt>)
    ensures
        r == global_position_in(p@),
{
    if p.len() < 28 {
        return None;
    }
    match (read_u32_le(p, 4), read_u32_le(p, 8), read_u32_le(p, 12)) {
        (Some(lat), Some(lon), Some(alt)) => match (
            read_u16_le(p, 20),
            read_u16_le(p, 22),
            read_u16_le(p, 24),
        ) {
            (Some(vx), Some(vy), Some(vz)) => Some(
                GlobalPositionInt {
                    lat_dege7: to_signed32(lat),
                    lon_dege7: to_signed32(lon),
                    alt_mm: to_signed32(alt),
                    vx_cm_s: to_signed16(vx),
                    vy_cm_s: to_signed16(vy),
                    vz_cm_s: to_signed16(vz),
                },
            ),
            _ => None,
        },
        _ => None,
    }
}

/// Decodes the payload of message `msg_id`, if that message is understood.
pub fn decode_payload(msg_id: u32, payload: &[u8]) -> (r: Option<MavMsg>)
    ensures
        r == message_in(msg_id, payload@),
{
    if msg_id == MSG_ATTITUDE {
        match decode_attitude(payload) {
            Some(a) => Some(MavMsg::Attitude(a)),
            None => None,
        }
    } else if msg_id == MSG_GLOBAL_POSITION_INT {
        match decode_global_position_int(payload) {
            Some(g) => Some(MavMsg::GlobalPositionInt(g)),
            None => None,
        }
    } else {
        None
    }
}

// ── Frames ─────────────────────────────────────────────────────────────

/// Length of the header in front of the payload.
pub open spec fn header_len(magic: u8) -> int {
    if magic == MAGIC_V1 {
        6
    } else {
        10
    }
}

/// Length of the frame that begins at `i`: header, payload, checksum.
pub open spec fn frame_len_at(buf: Seq<u8>, i: int) -> int {
    header_len(buf[i]) + buf[i + 1] + 2
}

/// The system that sent the frame at `i`.
pub open spec fn system_at(buf: Seq<u8>, i: int) -> u8 {
    if buf[i] == MAGIC_V1 {
        buf[i + 3]
    } else {
        buf[i + 5]
    }
}

/// The message number of the frame at `i`.
pub open spec fn msg_id_at(buf: Seq<u8>, i: int) -> u32 {
    if buf[i] == MAGIC_V1 {
        buf[i + 5] as u32
    } else {
        (buf[i + 7] + 0x100 * buf[i + 8] + 0x1_0000 * buf[i + 9]) as u32
    }
}

/// The checksum of the frame at `i` is right: it covers everything after the
/// first byte, and the extra byte of the message.
pub open spec fn crc_ok_at(buf: Seq<u8>, i: int) -> bool {
    let end = i + frame_len_at(buf, i);
    match crc_extra(msg_id_at(buf, i)) {
        Some(extra) => x25_step(x25_of(buf.subrange(i + 1, end - 2)), extra) == u16_le_at(
            buf,
            end - 2,
        ),
        None => false,
    }
}

/// What the scanner does at a position.
pub enum Step {
    /// Nothing further in this buffer can be read.
    Stop,
    /// Go on so many bytes further.
    Skip(int),
    /// A whole frame of so many bytes.
    Frame(int),
}

/// What the scanner does at position `i`.
pub open spec fn step_at(buf: Seq<u8>, i: int) -> Step {
    if buf[i] != MAGIC_V1 && buf[i] != MAGIC_V2 {
        Step::Skip(1)
    } else if i + header_len(buf[i]) > buf.len() {
        Step::Stop
    } else if buf[i] == MAGIC_V2 && buf[i + 2] != 0 {
        // Signed, or extended in some other way: not supported.
        Step::Skip(1)
    } else if i + frame_len_at(buf, i) > buf.len() {
        Step::Stop
    } else {
        Step::Frame(frame_len_at(buf, i))
    }
}

/// What the frame at `i` contributes: the sending system and the message, if
/// the checksum is right and the message is understood.
pub open spec fn content_at(buf: Seq<u8>, i: int) -> Seq<(u8, MavMsg)> {
    let start = i + header_len(buf[i]);
    if crc_ok_at(buf, i) {
        match message_in(msg_id_at(buf, i), buf.subrange(start, start + buf[i + 1])) {
            Some(msg) => seq![(system_at(buf, i), msg)],
            None => Seq::empty(),
        }
    } else {
        Seq::empty()
    }
}

/// The messages in `buf` from position `i` on, each with the system that sent it.
pub open spec fn messages_from(buf: Seq<u8>, i: int) -> Seq<(u8, MavMsg)>
    decreases buf.len() - i,
{
    if i < 0 || i >= buf.len() {
        Seq::empty()
    } else {
        match step_at(buf, i) {
            Step::Stop => Seq::empty(),
            Step::Skip(n) => if n > 0 {
                messages_from(buf, i + n)
            } else {
                Seq::empty()
            },
            Step::Frame(n) => if n > 0 {
                content_at(buf, i) + messages_from(buf, i + n)
            } else {
                Seq::empty()
            },
        }
    }
}

/// The messages of system `system_id`; 0 stands for all systems.
pub open spec fn sent_by(messages: Seq<(u8, MavMsg)>, system_id: u8) -> Seq<MavMsg>
    decreases messages.len(),
{
    if messages.len() == 0 {
        Seq::empty()
    } else if system_id == 0 || messages[0].0 == system_id {
        seq![messages[0].1] + sent_by(messages.skip(1), system_id)
    } else {
        sent_by(messages.skip(1), system_id)
    }
}

/// Selecting distributes over concatenation.
pub proof fn sent_by_concat(a: Seq<(u8, MavMsg)>, b: Seq<(u8, MavMsg)>, system_id: u8)
    ensures
        sent_by(a + b, system_id) == sent_by(a, system_id) + sent_by(b, system_id),
    decreases a.len(),
{
    if a.len() == 0 {
        assert(a + b =~= b);
        assert(Seq::<MavMsg>::empty() + sent_by(b, system_id) =~= sent_by(b, system_id));
    } else {
        sent_by_concat(a.skip(1), b, system_id);
        assert((a + b).skip(1) =~= a.skip(1) + b);
        assert((a + b)[0] == a[0]);
        assert(seq![a[0].1] + (sent_by(a.skip(1), system_id) + sent_by(b, system_id)) =~= (seq![
            a[0].1,
        ] + sent_by(a.skip(1), system_id)) + sent_by(b, system_id));
    }
}

/// The message of the whole frame at `i`, if its checksum is right, it was sent
/// by the wanted system and it is understood.
fn read_frame(buf: &[u8], i: usize, frame_len: usize, system_id: u8) -> (r: Option<MavMsg>)
    requires
        i < buf.len(),
        step_at(buf@, i as int) == Step::Frame(frame_len as int),
        i + frame_len <= buf.len(),
        buf@[i as int] == MAGIC_V1 || buf@[i as int] == MAGIC_V2,
    ensures
        sent_by(content_at(buf@, i as int), system_id) == (match r {
            Some(msg) => seq![msg],
            None => Seq::<MavMsg>::empty(),
        }),
{
    let v1: bool = buf[i] == MAGIC_V1;
    let header: usize = if v1 { 6 } else { 10 };
    let payload_len: usize = buf[i + 1] as usize;
    let sysid: u8 = if v1 { buf[i + 3] } else { buf[i + 5] };
    let msg_id: u32 = if v1 {
        buf[i + 5] as u32
    } else {
        buf[i + 7] as u32 + 0x100 * (buf[i + 8] as u32) + 0x1_0000 * (buf[i + 9] as u32)
    };
    let covered = slice_subrange(buf, i + 1, i + frame_len - 2);
    let payload = slice_subrange(buf, i + header, i + header + payload_len);
    proof {
        assert(msg_id == msg_id_at(buf@, i as int));
        assert(sysid == system_at(buf@, i as int));
        reveal_with_fuel(sent_by, 2);
        let one = content_at(buf@, i as int);
        if one.len() == 1 {
            assert(one.skip(1) =~= Seq::<(u8, MavMsg)>::empty());
            assert(seq![one[0].1] + Seq::<MavMsg>::empty() =~= seq![one[0].1]);
        }
    }
    match crc_extra_for(msg_id) {
        Some(extra) => {
            let crc: u16 = x25_crc_accumulate(x25_crc(covered), extra);
            let wire_crc: u16 = buf[i + frame_len - 2] as u16 + 0x100 * (buf[i + frame_len
                - 1] as u16);
            if crc == wire_crc && (system_id == 0 || sysid == system_id) {
                decode_payload(msg_id, payload)
            } else {
                None
            }
        },
        None => None,
    }
}

/// Decodes the messages of all valid frames in the first `len` bytes of `buf`
/// that system `system_id` sent (0 for any system), in order.
pub fn parse_frames(buf: &[u8], len: usize, system_id: u8) -> (r: Vec<MavMsg>)
    requires
        len <= buf.len(),
    ensures
        r@ == sent_by(messages_from(buf@.take(len as int), 0), system_id),
{
    let buf = slice_subrange(buf, 0, len);
    let mut msgs: Vec<MavMsg> = Vec::new();
    let mut i: usize = 0;
    proof {
        assert(msgs@ + sent_by(messages_from(buf@, 0), system_id) =~= sent_by(
            messages_from(buf@, 0),
            system_id,
        ));
    }
    while i < buf.len()
        invariant
            i <= buf.len(),
            sent_by(messages_from(buf@, 0), system_id) == msgs@ + sent_by(
                messages_from(buf@, i as int),
                system_id,
            ),
        ensures
            msgs@ == sent_by(messages_from(buf@, 0), system_id),
        decreases buf.len() - i,
    {
        let magic: u8 = buf[i];
        let mut frame_len: usize = 0;
        if magic == MAGIC_V1 || magic == MAGIC_V2 {
            let header: usize = if magic == MAGIC_V1 { 6 } else { 10 };
            if buf.len() - i < header {
                proof {
                    assert(msgs@ + Seq::<MavMsg>::empty() =~= msgs@);
                }
                break;
            }
            if magic == MAGIC_V1 || buf[i + 2] == 0 {
                frame_len = header + buf[i + 1] as usize + 2;
                if buf.len() - i < frame_len {
                    proof {
                        assert(msgs@ + Seq::<MavMsg>::empty() =~= msgs@);
                    }
                    break;
                }
            }
        }
        if frame_len == 0 {
            i = i + 1;
        } else {
            let ghost before = msgs@;
            proof {
                sent_by_concat(
                    content_at(buf@, i as int),
                    messages_from(buf@, i + frame_len),
                    system_id,
                );
            }
            match read_frame(buf, i, frame_len, system_id) {
                Some(msg) => {
                    msgs.push(msg);
                    proof {
                        let rest = sent_by(messages_from(buf@, i + frame_len), system_id);
                        assert(before + (seq![msg] + rest) =~= msgs@ + rest);
                    }
                },
                None => {
                    proof {
                        let rest = sent_by(messages_from(buf@, i + frame_len), system_id);
                        assert(Seq::<MavMsg>::empty() + rest =~= rest);
                    }
                },
            }
            i = i + frame_len;
        }
    }
    proof {
        assert(msgs@ + Seq::<MavMsg>::empty() =~= msgs@);
    }
    msgs
}

/// Where frames come from.
#[derive(Debug, Clone, Copy, PartialEq, Eq, Structural)]
pub struct MavLinkSource {
    /// UDP port.
    pub port: u16,
    /// System whose messages are used; 0 for all.
    pub system_id: u8,
}

impl MavLinkSource {
    /// The source that the settings describe.
    pub open spec fn described(cfg: Config) -> MavLinkSource {
        MavLinkSource { port: cfg.mavlink_listen_port, system_id: cfg.mavlink_system_id }
    }

    /// The source that the settings describe.
    pub fn from_config(cfg: &Config) -> (r: Self)
        ensures
            r == MavLinkSource::described(*cfg),
            r == (MavLinkSource {
                port: cfg.mavlink_listen_port,
                system_id: cfg.mavlink_system_id,
            }),
    {
        MavLinkSource { port: cfg.mavlink_listen_port, system_id: cfg.mavlink_system_id }
    }
}

// ── Laws ───────────────────────────────────────────────────────────────

/// What a byte, mixed with the low half of the register, does to the register.
spec fn x25_feedback(mixed: u16) -> u16 {
    (mixed << 8) ^ (mixed << 3) ^ (mixed >> 4)
}

/// A byte and the low half of the register, mixed.
spec fn x25_mixed(crc: u16, byte: u8) -> u16 {
    let m = (crc & 0xFF) ^ (byte as u16);
    (m ^ (m << 4)) & 0xFF
}

/// The register after one more byte, eight bits at a time.
proof fn lemma_step_is_feedback(crc: u16, byte: u8)
    by (bit_vector)
    ensures
        x25_step(crc, byte) == (crc >> 8) ^ x25_feedback(x25_mixed(crc, byte)),
{
}

/// A byte takes different registers to different registers.
proof fn lemma_step_keeps_registers_apart(c: u16, d: u16, byte: u8)
    requires
        c != d,
    ensures
        x25_step(c, byte) != x25_step(d, byte),
{
    lemma_step_is_feedback(c, byte);
    lemma_step_is_feedback(d, byte);
    assert((c >> 8) ^ x25_feedback(x25_mixed(c, byte)) != (d >> 8) ^ x25_feedback(
        x25_mixed(d, byte),
    )) by (bit_vector)
        requires
            c != d,
    ;
}

/// Different bytes take a register to different registers.
proof fn lemma_step_keeps_bytes_apart(c: u16, a: u8, b: u8)
    requires
        a != b,
    ensures
        x25_step(c, a) != x25_step(c, b),
{
    lemma_step_is_feedback(c, a);
    lemma_step_is_feedback(c, b);
    assert((c >> 8) ^ x25_feedback(x25_mixed(c, a)) != (c >> 8) ^ x25_feedback(x25_mixed(c, b)))
        by (bit_vector)
        requires
            a != b,
    ;
}

/// A single changed byte changes the checksum.
pub proof fn changed_byte_changes_checksum(s: Seq<u8>, i: int, b: u8)
    requires
        0 <= i < s.len(),
        b != s[i],
    ensures
        x25_of(s.update(i, b)) != x25_of(s),
    decreases s.len(),
{
    let t = s.update(i, b);
    if i == s.len() - 1 {
        assert(t.drop_last() =~= s.drop_last());
        lemma_step_keeps_bytes_apart(x25_of(s.drop_last()), s[i], b);
    } else {
        changed_byte_changes_checksum(s.drop_last(), i, b);
        assert(t.drop_last() =~= s.drop_last().update(i, b));
        lemma_step_keeps_registers_apart(
            x25_of(t.drop_last()),
            x25_of(s.drop_last()),
            s.last(),
        );
    }
}

/// The register is zero after its own two bytes.
proof fn lemma_register_cancels(c: u16, low: u8, high: u8)
    requires
        low == (c % 0x100) as u8,
        high == (c / 0x100) as u8,
    ensures
        x25_step(x25_step(c, low), high) == 0,
{
    let d = high as u16;
    lemma_step_is_feedback(c, low);
    lemma_step_is_feedback(d, high);
    assert((c >> 8) ^ x25_feedback(x25_mixed(c, low)) == d) by (bit_vector)
        requires
            low == (c % 0x100) as u8,
            high == (c / 0x100) as u8,
            d == high as u16,
    ;
    assert((d >> 8) ^ x25_feedback(x25_mixed(d, high)) == 0) by (bit_vector)
        requires
            d == high as u16,
    ;
}

/// The checksum of bytes that end in their checksum is zero.
pub proof fn checksum_leaves_no_residue(s: Seq<u8>)
    ensures
        x25_of(s + u16_le(x25_of(s))) == 0,
{
    let c = x25_of(s);
    let (low, high) = ((c % 0x100) as u8, (c / 0x100) as u8);
    let all = s + u16_le(c);
    assert(all.drop_last() =~= s.push(low));
    assert(all.drop_last().drop_last() =~= s);
    assert(all.last() == high && all.drop_last().last() == low);
    assert(x25_of(all.drop_last()) == x25_step(c, low));
    assert(x25_of(all) == x25_step(x25_step(c, low), high));
    lemma_register_cancels(c, low, high);
}

/// The scanner's step depends on nothing in front of its position.
proof fn lemma_step_shifts(front: Seq<u8>, rest: Seq<u8>, i: int)
    requires
        0 <= i < rest.len(),
    ensures
        step_at(front + rest, front.len() + i) == step_at(rest, i),
{
    let all = front + rest;
    let j = front.len() + i;
    assert(all[j] == rest[i]);
    assert(i + 1 < rest.len() ==> all[j + 1] == rest[i + 1]);
    assert(i + 2 < rest.len() ==> all[j + 2] == rest[i + 2]);
}

/// Neither does what a frame contributes.
proof fn lemma_content_shifts(front: Seq<u8>, rest: Seq<u8>, i: int)
    requires
        0 <= i < rest.len(),
        step_at(rest, i) is Frame,
    ensures
        content_at(front + rest, front.len() + i) == content_at(rest, i),
{
    let all = front + rest;
    let j = front.len() + i;
    let n = frame_len_at(rest, i);
    let start = header_len(rest[i]);
    assert(forall|k: int| 0 <= k < n ==> all[j + k] == #[trigger] rest[i + k]);
    assert(all[j] == rest[i + 0]);
    assert(all[j + 1] == rest[i + 1] && all[j + 3] == rest[i + 3] && all[j + 5] == rest[i + 5]);
    if rest[i] != MAGIC_V1 {
        assert(all[j + 7] == rest[i + 7] && all[j + 8] == rest[i + 8] && all[j + 9] == rest[i
            + 9]);
    }
    assert(all[j + n - 2] == rest[i + (n - 2)] && all[j + n - 1] == rest[i + (n - 1)]);
    assert(all.subrange(j + 1, j + n - 2) =~= rest.subrange(i + 1, i + n - 2));
    assert(all.subrange(j + start, j + start + rest[i + 1]) =~= rest.subrange(
        i + start,
        i + start + rest[i + 1],
    ));
}

/// What stands in front of the scanner's position does not matter.
pub proof fn messages_shift(front: Seq<u8>, rest: Seq<u8>, i: int)
    requires
        0 <= i <= rest.len(),
    ensures
        messages_from(front + rest, front.len() + i) == messages_from(rest, i),
    decreases rest.len() - i,
{
    if i < rest.len() {
        lemma_step_shifts(front, rest, i);
        match step_at(rest, i) {
            Step::Stop => {},
            Step::Skip(n) => {
                messages_shift(front, rest, i + n);
            },
            Step::Frame(n) => {
                messages_shift(front, rest, i + n);
                lemma_content_shifts(front, rest, i);
            },
        }
    }
}

/// A frame: first byte, body, and the checksum of the body and the extra byte.
pub open spec fn sealed(magic: u8, body: Seq<u8>, extra: u8) -> Seq<u8> {
    seq![magic] + body + u16_le(x25_step(x25_of(body), extra))
}

/// Body of a version 1 frame.
pub open spec fn v1_body(sequence: u8, system: u8, component: u8, msg_id: u8, payload: Seq<u8>) -> Seq<
    u8,
> {
    seq![payload.len() as u8, sequence, system, component, msg_id] + payload
}

/// Body of a version 2 frame with no incompatibility flags.
pub open spec fn v2_body(
    compat: u8,
    sequence: u8,
    system: u8,
    component: u8,
    msg_id: u32,
    payload: Seq<u8>,
) -> Seq<u8> {
    seq![
        payload.len() as u8,
        0u8,
        compat,
        sequence,
        system,
        component,
        (msg_id % 0x100) as u8,
        (msg_id / 0x100 % 0x100) as u8,
        (msg_id / 0x1_0000 % 0x100) as u8,
    ] + payload
}

/// The message of a payload, with the system that sent it.
pub open spec fn delivered(system: u8, msg_id: u32, payload: Seq<u8>) -> Seq<(u8, MavMsg)> {
    match message_in(msg_id, payload) {
        Some(msg) => seq![(system, msg)],
        None => Seq::empty(),
    }
}

/// A well-formed version 1 frame delivers its message, and the scanner goes on
/// with what follows it.
pub proof fn v1_frame_delivered(
    sequence: u8,
    system: u8,
    component: u8,
    msg_id: u8,
    extra: u8,
    payload: Seq<u8>,
    rest: Seq<u8>,
)
    requires
        payload.len() <= 255,
        crc_extra(msg_id as u32) == Some(extra),
    ensures
        messages_from(
            sealed(MAGIC_V1, v1_body(sequence, system, component, msg_id, payload), extra) + rest,
            0,
        ) == delivered(system, msg_id as u32, payload) + messages_from(rest, 0),
{
    let body = v1_body(sequence, system, component, msg_id, payload);
    let crc = x25_step(x25_of(body), extra);
    let frame = sealed(MAGIC_V1, body, extra);
    let all = frame + rest;
    let n = frame.len() as int;
    assert(n == payload.len() + 8);
    assert(all[0] == MAGIC_V1 && all[1] == payload.len() as u8);
    assert(step_at(all, 0) == Step::Frame(n));
    assert(all.subrange(1, n - 2) =~= body);
    assert(all.subrange(6, n - 2) =~= payload);
    assert(all.subrange(n - 2, n) =~= u16_le(crc));
    u16_le_roundtrip(all, n - 2, crc);
    assert(content_at(all, 0) == delivered(system, msg_id as u32, payload));
    messages_shift(frame, rest, 0);
}

/// A well-formed version 2 frame delivers its message, and the scanner goes on
/// with what follows it.
pub proof fn v2_frame_delivered(
    compat: u8,
    sequence: u8,
    system: u8,
    component: u8,
    msg_id: u32,
    extra: u8,
    payload: Seq<u8>,
    rest: Seq<u8>,
)
    requires
        payload.len() <= 255,
        crc_extra(msg_id) == Some(extra),
    ensures
        messages_from(
            sealed(MAGIC_V2, v2_body(compat, sequence, system, component, msg_id, payload), extra)
                + rest,
            0,
        ) == delivered(system, msg_id, payload) + messages_from(rest, 0),
{
    let body = v2_body(compat, sequence, system, component, msg_id, payload);
    let crc = x25_step(x25_of(body), extra);
    let frame = sealed(MAGIC_V2, body, extra);
    let all = frame + rest;
    let n = frame.len() as int;
    assert(n == payload.len() + 12);
    assert(all[0] == MAGIC_V2 && all[1] == payload.len() as u8 && all[2] == 0);
    assert(step_at(all, 0) == Step::Frame(n));
    assert(all.subrange(1, n - 2) =~= body);
    assert(all.subrange(10, n - 2) =~= payload);
    assert(all.subrange(n - 2, n) =~= u16_le(crc));
    u16_le_roundtrip(all, n - 2, crc);
    assert(content_at(all, 0) == delivered(system, msg_id, payload));
    messages_shift(frame, rest, 0);
}

/// A whole frame with a wrong checksum is dropped: the result is that of what
/// follows it.
pub proof fn corrupt_frame_dropped(frame: Seq<u8>, rest: Seq<u8>)
    requires
        frame.len() > 0,
        step_at(frame, 0) == Step::Frame(frame.len() as int),
        !crc_ok_at(frame, 0),
    ensures
        messages_from(frame + rest, 0) == messages_from(rest, 0),
{
    let all = frame + rest;
    let n = frame.len() as int;
    assert(frame[0] == MAGIC_V1 || frame[0] == MAGIC_V2);
    assert(frame.len() >= 8);
    assert(forall|k: int| 0 <= k < n ==> all[k] == frame[k]);
    assert(all[0] == frame[0] && all[1] == frame[1] && all[2] == frame[2]);
    assert(step_at(all, 0) == Step::Frame(n));
    assert(all.subrange(1, n - 2) =~= frame.subrange(1, n - 2));
    assert(!crc_ok_at(all, 0));
    messages_shift(frame, rest, 0);
    assert(Seq::<(u8, MavMsg)>::empty() + messages_from(rest, 0) =~= messages_from(rest, 0));
}

/// Bytes that begin no frame are passed over.
pub proof fn stray_byte_skipped(byte: u8, rest: Seq<u8>)
    requires
        byte != MAGIC_V1,
        byte != MAGIC_V2,
    ensures
        messages_from(seq![byte] + rest, 0) == messages_from(rest, 0),
{
    assert((seq![byte] + rest)[0] == byte);
    messages_shift(seq![byte], rest, 0);
}

/// System 0 selects the messages of all systems.
pub proof fn system_zero_selects_all(messages: Seq<(u8, MavMsg)>)
    ensures
        sent_by(messages, 0) == messages.map_values(|m: (u8, MavMsg)| m.1),
    decreases messages.len(),
{
    let msg = |m: (u8, MavMsg)| m.1;
    if messages.len() == 0 {
        assert(messages.map_values(msg) =~= Seq::<MavMsg>::empty());
    } else {
        system_zero_selects_all(messages.skip(1));
        assert(messages.map_values(msg) =~= seq![messages[0].1] + messages.skip(1).map_values(msg));
    }
}

/// No message of another system is selected.
pub proof fn other_systems_ignored(messages: Seq<(u8, MavMsg)>, system_id: u8)
    requires
        system_id != 0,
        forall|i: int| 0 <= i < messages.len() ==> (#[trigger] messages[i]).0 != system_id,
    ensures
        sent_by(messages, system_id) == Seq::<MavMsg>::empty(),
    decreases messages.len(),
{
    if messages.len() > 0 {
        assert forall|i: int| 0 <= i < messages.skip(1).len() implies (#[trigger] messages.skip(
            1,
        )[i]).0 != system_id by {
            assert(messages.skip(1)[i] == messages[i + 1]);
        }
        other_systems_ignored(messages.skip(1), system_id);
    }
}

// ── Fusion ─────────────────────────────────────────────────────────────

/// The latest attitude and position received so far.
#[derive(Debug, Clone, Copy, PartialEq, Eq, Structural)]
pub struct PartialState {
    pub attitude: Option<AttitudeData>,
    pub global_pos: Option<GlobalPosData>,
}

impl Default for PartialState {
    /// Nothing received yet.
    fn default() -> (r: Self)
        ensures
            r == (PartialState { attitude: None, global_pos: None }),
    {
        PartialState { attitude: None, global_pos: None }
    }
}

/// The platform at a position with an attitude.
pub open spec fn fused(a: AttitudeData, g: GlobalPosData) -> PlatformState {
    PlatformState {
        lat_rad: g.lat_rad,
        lon_rad: g.lon_rad,
        alt_m: g.alt_m,
        roll_rad: a.roll,
        pitch_rad: a.pitch,
        yaw_rad: a.yaw,
        vel_north_m_s: g.vel_north_m_s,
        vel_east_m_s: g.vel_east_m_s,
        vel_down_m_s: g.vel_down_m_s,
    }
}

impl PartialState {
    /// What is known after one more message.
    pub open spec fn applied(self, msg: PlatformUpdate) -> PartialState {
        match msg {
            PlatformUpdate::Attitude(a) => PartialState { attitude: Some(a), ..self },
            PlatformUpdate::Position(g) => PartialState { global_pos: Some(g), ..self },
        }
    }

    /// Replaces the part that the message carries.
    pub fn apply(&mut self, msg: PlatformUpdate)
        ensures
            *final(self) == old(self).applied(msg),
            *final(self) == (match msg {
                PlatformUpdate::Attitude(a) => PartialState { attitude: Some(a), ..*old(self) },
                PlatformUpdate::Position(g) => PartialState { global_pos: Some(g), ..*old(self) },
            }),
    {
        match msg {
            PlatformUpdate::Attitude(a) => {
                self.attitude = Some(a);
            },
            PlatformUpdate::Position(g) => {
                self.global_pos = Some(g);
            },
        }
    }

    /// The platform state, once both parts have been received: roll, pitch and yaw of
    /// the latest attitude, everything else of the latest position.
    pub fn complete(&self) -> (r: Option<PlatformState>)
        ensures
            r == self.spec_complete(),
            r is Some <==> self.attitude is Some && self.global_pos is Some,
            r matches Some(p) ==> {
                &&& p.roll_rad == self.attitude->0.roll
                &&& p.pitch_rad == self.attitude->0.pitch
                &&& p.yaw_rad == self.attitude->0.yaw
                &&& p.lat_rad == self.global_pos->0.lat_rad
                &&& p.lon_rad == self.global_pos->0.lon_rad
                &&& p.alt_m == self.global_pos->0.alt_m
                &&& p.vel_north_m_s == self.global_pos->0.vel_north_m_s
                &&& p.vel_east_m_s == self.global_pos->0.vel_east_m_s
                &&& p.vel_down_m_s == self.global_pos->0.vel_down_m_s
            },
    {
        match (self.attitude, self.global_pos) {
            (Some(a), Some(g)) => Some(
                PlatformState {
                    lat_rad: g.lat_rad,
                    lon_rad: g.lon_rad,
                    alt_m: g.alt_m,
                    roll_rad: a.roll,
                    pitch_rad: a.pitch,
                    yaw_rad: a.yaw,
                    vel_north_m_s: g.vel_north_m_s,
                    vel_east_m_s: g.vel_east_m_s,
                    vel_down_m_s: g.vel_down_m_s,
                },
            ),
            _ => None,
        }
    }

    /// The platform state, once both parts have been received.
    pub open spec fn spec_complete(self) -> Option<PlatformState> {
        match (self.attitude, self.global_pos) {
            (Some(a), Some(g)) => Some(fused(a, g)),
            _ => None,
        }
    }
}

/// The fused state has roll, pitch and yaw of the attitude, each in its own field, and
/// latitude, longitude, altitude and the velocities north, east and down of the
/// position, each in its own field.
pub proof fn fused_field_by_field(a: AttitudeData, g: GlobalPosData)
    ensures
        fused(a, g).roll_rad == a.roll,
        fused(a, g).pitch_rad == a.pitch,
        fused(a, g).yaw_rad == a.yaw,
        fused(a, g).lat_rad == g.lat_rad,
        fused(a, g).lon_rad == g.lon_rad,
        fused(a, g).alt_m == g.alt_m,
        fused(a, g).vel_north_m_s == g.vel_north_m_s,
        fused(a, g).vel_east_m_s == g.vel_east_m_s,
        fused(a, g).vel_down_m_s == g.vel_down_m_s,
{
}

/// What is known after several messages.
pub open spec fn applied_all(p: PartialState, msgs: Seq<PlatformUpdate>) -> PartialState
    decreases msgs.len(),
{
    if msgs.len() == 0 {
        p
    } else {
        applied_all(p, msgs.drop_last()).applied(msgs.last())
    }
}

/// The latest attitude and the latest position count, in whatever order they came:
/// after an attitude, positions leave the attitude alone, and after a position,
/// attitudes leave the position alone.
pub proof fn latest_update_counts(
    p: PartialState,
    a: AttitudeData,
    g: GlobalPosData,
    between: Seq<PlatformUpdate>,
)
    ensures
        (forall|i: int| 0 <= i < between.len() ==> (#[trigger] between[i]) is Position)
            ==> applied_all(p.applied(PlatformUpdate::Attitude(a)), between).attitude == Some(a),
        (forall|i: int| 0 <= i < between.len() ==> (#[trigger] between[i]) is Attitude)
            ==> applied_all(p.applied(PlatformUpdate::Position(g)), between).global_pos == Some(g),
    decreases between.len(),
{
    if between.len() > 0 {
        let front = between.drop_last();
        latest_update_counts(p, a, g, front);
        assert(forall|i: int| 0 <= i < front.len() ==> #[trigger] front[i] == between[i]);
        assert(between.last() == between[between.len() - 1]);
    }
}

/// An attitude and a position are enough, in either order, and neither alone is.
pub proof fn both_parts_needed(a: AttitudeData, g: GlobalPosData)
    ensures
        ({
            let none = PartialState { attitude: None, global_pos: None };
            let att = PlatformUpdate::Attitude(a);
            let pos = PlatformUpdate::Position(g);
            &&& none.applied(att).spec_complete() is None
            &&& none.applied(pos).spec_complete() is None
            &&& none.applied(att).applied(pos) == none.applied(pos).applied(att)
            &&& none.applied(att).applied(pos).spec_complete() matches Some(p) && p.roll_rad
                == a.roll && p.lat_rad == g.lat_rad
        }),
{
}

/// An attitude is read from where it stands in the payload: roll at 4, pitch at 8, yaw
/// at 12.
pub proof fn attitude_read_back(p: Seq<u8>, a: AttitudeData)
    requires
        p.len() >= 28,
        p.subrange(4, 8) == u32_le(a.roll.bits),
        p.subrange(8, 12) == u32_le(a.pitch.bits),
        p.subrange(12, 16) == u32_le(a.yaw.bits),
    ensures
        message_in(30, p) == Some(MavMsg::Attitude(a)),
{
    u32_le_roundtrip(p, 4, a.roll.bits);
    u32_le_roundtrip(p, 8, a.pitch.bits);
    u32_le_roundtrip(p, 12, a.yaw.bits);
}

/// A position is read from where it stands in the payload, in two's complement:
/// latitude at 4, longitude at 8, altitude at 12, and the velocities north, east and
/// down at 20, 22 and 24.
pub proof fn global_position_read_back(
    p: Seq<u8>,
    g: GlobalPositionInt,
    lat: u32,
    lon: u32,
    alt: u32,
    north: u16,
    east: u16,
    down: u16,
)
    requires
        p.len() >= 28,
        p.subrange(4, 8) == u32_le(lat),
        p.subrange(8, 12) == u32_le(lon),
        p.subrange(12, 16) == u32_le(alt),
        p.subrange(20, 22) == u16_le(north),
        p.subrange(22, 24) == u16_le(east),
        p.subrange(24, 26) == u16_le(down),
        g.lat_dege7 as int == if g.lat_dege7 < 0 { lat - 0x1_0000_0000 } else { lat as int },
        g.lon_dege7 as int == if g.lon_dege7 < 0 { lon - 0x1_0000_0000 } else { lon as int },
        g.alt_mm as int == if g.alt_mm < 0 { alt - 0x1_0000_0000 } else { alt as int },
        g.vx_cm_s as int == if g.vx_cm_s < 0 { north - 0x1_0000 } else { north as int },
        g.vy_cm_s as int == if g.vy_cm_s < 0 { east - 0x1_0000 } else { east as int },
        g.vz_cm_s as int == if g.vz_cm_s < 0 { down - 0x1_0000 } else { down as int },
    ensures
        message_in(33, p) == Some(MavMsg::GlobalPositionInt(g)),
{
    u32_le_roundtrip(p, 4, lat);
    u32_le_roundtrip(p, 8, lon);
    u32_le_roundtrip(p, 12, alt);
    u16_le_roundtrip(p, 20, north);
    u16_le_roundtrip(p, 22, east);
    u16_le_roundtrip(p, 24, down);
}

/// Other messages, and payloads that are too short, give nothing.
pub proof fn other_messages_not_understood(msg_id: u32, p: Seq<u8>)
    requires
        (msg_id != 30 && msg_id != 33) || p.len() < 28,
    ensures
        message_in(msg_id, p) is None,
{
}

/// A message of the wanted system is selected where it stands, and one of another
/// system is left out: nothing is reordered or repeated.
pub proof fn wanted_system_selected(
    before: Seq<(u8, MavMsg)>,
    message: (u8, MavMsg),
    after: Seq<(u8, MavMsg)>,
    system_id: u8,
)
    ensures
        ({
            let all = sent_by(before + seq![message] + after, system_id);
            let (front, back) = (sent_by(before, system_id), sent_by(after, system_id));
            &&& system_id == 0 || message.0 == system_id ==> all == front + seq![message.1] + back
            &&& system_id != 0 && message.0 != system_id ==> all == front + back
        }),
{
    let one = seq![message];
    sent_by_concat(before + one, after, system_id);
    sent_by_concat(before, one, system_id);
    reveal_with_fuel(sent_by, 2);
    assert(one.skip(1) =~= Seq::<(u8, MavMsg)>::empty());
    assert(seq![message.1] + Seq::<MavMsg>::empty() =~= seq![message.1]);
    assert(sent_by(before, system_id) + Seq::<MavMsg>::empty() =~= sent_by(before, system_id));
}

/// The source listens on the port and to the system of the settings.
pub proof fn source_follows_settings(cfg: Config)
    ensures
        MavLinkSource::described(cfg).port == cfg.mavlink_listen_port,
        MavLinkSource::described(cfg).system_id == cfg.mavlink_system_id,
{
}

/// The extra checksum bytes are 39 for an attitude and 104 for a position; no other
/// message has one here.
pub proof fn extra_checksum_bytes(msg_id: u32)
    ensures
        msg_id == 30 ==> crc_extra(msg_id) == Some(39u8),
        msg_id == 33 ==> crc_extra(msg_id) == Some(104u8),
        msg_id != 30 && msg_id != 33 ==> crc_extra(msg_id) is None,
{
}

/// A frame of which the end is missing gives nothing, whatever its payload is.
pub proof fn cut_frame_gives_nothing(
    sequence: u8,
    system: u8,
    component: u8,
    msg_id: u8,
    extra: u8,
    payload: Seq<u8>,
    n: int,
)
    requires
        payload.len() <= 255,
        0 <= n < payload.len() + 8,
    ensures
        messages_from(
            sealed(
                MAGIC_V1,
                v1_body(sequence, system, component, msg_id, payload),
                extra,
            ).take(n),
            0,
        ) == Seq::<(u8, MavMsg)>::empty(),
{
    let frame = sealed(MAGIC_V1, v1_body(sequence, system, component, msg_id, payload), extra);
    let cut = frame.take(n);
    if n > 0 {
        assert(cut[0] == MAGIC_V1);
        if n >= 6 {
            assert(cut[1] == payload.len() as u8);
        }
        assert(step_at(cut, 0) == Step::Stop);
    }
}

/// A version 2 frame with incompatibility flags is not read: its first byte is passed
/// over.
pub proof fn incompatible_frame_skipped(len: u8, flags: u8, rest: Seq<u8>)
    requires
        flags != 0,
        rest.len() >= 7,
    ensures
        messages_from(seq![0xFDu8, len, flags] + rest, 0) == messages_from(
            seq![len, flags] + rest,
            0,
        ),
{
    let all = seq![0xFDu8, len, flags] + rest;
    assert(all[0] == 0xFD && all[2] == flags);
    assert(step_at(all, 0) == Step::Skip(1));
    assert(all =~= seq![0xFDu8] + (seq![len, flags] + rest));
    messages_shift(seq![0xFDu8], seq![len, flags] + rest, 0);
}

} // verus!
