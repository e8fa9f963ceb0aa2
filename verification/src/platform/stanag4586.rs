//! STANAG 4586 Edition 2 Amendment 1 data link interface messages.
//!
//! All fields are big-endian. A message stands in a wrapper:
//!
//! | bytes    | content                                              |
//! |----------|------------------------------------------------------|
//! | 0..10    | version of the interface (ASCII, padded with zeros)  |
//! | 10..14   | message instance                                     |
//! | 14..18   | spare                                                |
//! | 18..22   | message type                                         |
//! | 22..26   | length of the body                                   |
//! | 26..30   | stream                                               |
//! | 30..34   | packet sequence number                               |
//! | 34..     | body                                                 |
//! | last 4   | sum of all bytes before it                           |

use vstd::prelude::*;
use vstd::slice::slice_subrange;

use crate::bits::{same_number, widen, F32Bits, F64Bits};
use crate::bytes::{
    read_f32_be, read_f64_be, read_u32_be, signed32, to_signed32, u32_be, u32_be_at,
    u32_be_roundtrip, u64_be, u64_be_at, u64_be_roundtrip,
};
use crate::platform::PlatformState;

verus! {

/// Bytes in front of the body.
pub const HDR_LEN: usize = 34;

/// Bytes of the checksum.
pub const CHKSUM_LEN: usize = 4;

/// The shortest wrapper.
pub const MIN_FRAME: usize = 38;

/// Inertial States.
pub const MSG_INERTIAL: u32 = 101;

/// Air and Ground Relative States.
pub const MSG_AIR_GROUND: u32 = 102;

/// Body-Relative Sensed States.
pub const MSG_BODY_SENSED: u32 = 103;

/// The shortest body of Inertial States.
pub const BODY_MIN_101: usize = 89;

/// The shortest body of Air and Ground Relative States.
pub const BODY_MIN_102: usize = 76;

/// The shortest body of Body-Relative Sensed States.
pub const BODY_MIN_103: usize = 40;

/// The fields of Inertial States that describe the platform.
#[derive(Debug, Clone, Copy, PartialEq, Eq, Structural)]
pub struct InertialStates {
    pub lat_rad: F64Bits,
    pub lon_rad: F64Bits,
    pub alt_m: F32Bits,
    pub vel_north_m_s: F32Bits,
    pub vel_east_m_s: F32Bits,
    pub vel_down_m_s: F32Bits,
    pub roll_rad: F32Bits,
    pub pitch_rad: F32Bits,
    pub yaw_rad: F32Bits,
}

/// A parsed message.
#[derive(Debug, Clone, Copy, PartialEq, Eq, Structural)]
pub enum Stanag4586Msg {
    /// Position, velocity and attitude in one message.
    InertialStates(InertialStates),
    /// Parsed; says nothing of the platform state.
    AirGroundRelative,
    /// Parsed; says nothing of the platform state.
    BodySensed,
}

// ── Checksum ───────────────────────────────────────────────────────────

/// The sum of all bytes of `s`.
pub open spec fn byte_sum(s: Seq<u8>) -> nat
    decreases s.len(),
{
    if s.len() == 0 {
        0
    } else {
        byte_sum(s.drop_last()) + s.last() as nat
    }
}

/// The last four bytes of `frame` are the sum of all bytes before them, modulo
/// 2^32.
pub open spec fn checksum_ok(frame: Seq<u8>) -> bool {
    &&& frame.len() >= 4
    &&& byte_sum(frame.take(frame.len() - 4)) % 0x1_0000_0000 == u32_be_at(
        frame,
        frame.len() - 4,
    )
}

/// Whether `frame` ends in its checksum.
pub fn verify_checksum(frame: &[u8]) -> (r: bool)
    ensures
        r == checksum_ok(frame@),
{
    let n: usize = frame.len();
    if n < CHKSUM_LEN {
        return false;
    }
    let covered: usize = n - CHKSUM_LEN;
    let mut sum: u32 = 0;
    let mut i: usize = 0;
    while i < covered
        invariant
            i <= covered <= frame.len(),
            sum == byte_sum(frame@.take(i as int)) % 0x1_0000_0000,
        decreases covered - i,
    {
        proof {
            assert(frame@.take(i + 1).drop_last() =~= frame@.take(i as int));
        }
        sum = sum.wrapping_add(frame[i] as u32);
        i = i + 1;
    }
    match read_u32_be(frame, covered) {
        Some(wire) => sum == wire,
        None => false,
    }
}

// ── Bodies ─────────────────────────────────────────────────────────────

/// Inertial States in a body of at least 89 bytes.
pub open spec fn inertial_in(body: Seq<u8>) -> Option<Stanag4586Msg> {
    if body.len() < BODY_MIN_101 {
        None
    } else {
        Some(
            Stanag4586Msg::InertialStates(
                InertialStates {
                    lat_rad: F64Bits { bits: u64_be_at(body, 16) },
                    lon_rad: F64Bits { bits: u64_be_at(body, 24) },
                    alt_m: F32Bits { bits: u32_be_at(body, 32) },
                    vel_north_m_s: F32Bits { bits: u32_be_at(body, 37) },
                    vel_east_m_s: F32Bits { bits: u32_be_at(body, 41) },
                    vel_down_m_s: F32Bits { bits: u32_be_at(body, 45) },
                    roll_rad: F32Bits { bits: u32_be_at(body, 61) },
                    pitch_rad: F32Bits { bits: u32_be_at(body, 65) },
                    yaw_rad: F32Bits { bits: u32_be_at(body, 69) },
                },
            ),
        )
    }
}

/// The message of type `msg_type` in `body`.
pub open spec fn body_message(msg_type: u32, body: Seq<u8>) -> Option<Stanag4586Msg> {
    if msg_type == MSG_INERTIAL {
        inertial_in(body)
    } else if msg_type == MSG_AIR_GROUND && body.len() >= BODY_MIN_102 {
        Some(Stanag4586Msg::AirGroundRelative)
    } else if msg_type == MSG_BODY_SENSED && body.len() >= BODY_MIN_103 {
        Some(Stanag4586Msg::BodySensed)
    } else {
        None
    }
}

/// The vehicle that a body comes from.
pub open spec fn vehicle_of(body: Seq<u8>) -> i32 {
    signed32(u32_be_at(body, 8))
}

/// `vehicle` passes the filter; filter 0 lets every vehicle pass.
pub open spec fn passes(vehicle: i32, vehicle_id_filter: i32) -> bool {
    vehicle_id_filter == 0 || vehicle == vehicle_id_filter
}

/// Decodes the body of message 101:
/// latitude at 16, longitude at 24 (f64, rad), altitude at 32 (f32, m), speeds
/// north, east and down at 37, 41 and 45 (f32, m/s), roll, pitch and yaw at 61,
/// 65 and 69 (f32, rad).
pub fn decode_101(body: &[u8]) -> (r: Option<Stanag4586Msg>)
    ensures
        r == inertial_in(body@),
{
    if body.len() < BODY_MIN_101 {
        return None;
    }
    match (read_f64_be(body, 16), read_f64_be(body, 24), read_f32_be(body, 32)) {
        (Some(lat_rad), Some(lon_rad), Some(alt_m)) => match (
            read_f32_be(body, 37),
            read_f32_be(body, 41),
            read_f32_be(body, 45),
        ) {
            (Some(vel_north_m_s), Some(vel_east_m_s), Some(vel_down_m_s)) => match (
                read_f32_be(body, 61),
                read_f32_be(body, 65),
                read_f32_be(body, 69),
            ) {
                (Some(roll_rad), Some(pitch_rad), Some(yaw_rad)) => Some(
                    Stanag4586Msg::InertialStates(
                        InertialStates {
                            lat_rad,
                            lon_rad,
                            alt_m,
                            vel_north_m_s,
                            vel_east_m_s,
                            vel_down_m_s,
                            roll_rad,
                            pitch_rad,
                            yaw_rad,
                        },
                    ),
                ),
                _ => None,
            },
            _ => None,
        },
        _ => None,
    }
}

/// Decodes the body of message 102.
pub fn decode_102(body: &[u8]) -> (r: Option<Stanag4586Msg>)
    ensures
        r == body_message(MSG_AIR_GROUND, body@),
{
    if body.len() < BODY_MIN_102 {
        return None;
    }
    Some(Stanag4586Msg::AirGroundRelative)
}

/// Decodes the body of message 103.
pub fn decode_103(body: &[u8]) -> (r: Option<Stanag4586Msg>)
    ensures
        r == body_message(MSG_BODY_SENSED, body@),
{
    if body.len() < BODY_MIN_103 {
        return None;
    }
    Some(Stanag4586Msg::BodySensed)
}

// ── Wrapper ────────────────────────────────────────────────────────────

/// Length of the wrapper at the start of `buf`, from its length field.
pub open spec fn wrapper_len(buf: Seq<u8>) -> int {
    HDR_LEN + u32_be_at(buf, 22) + CHKSUM_LEN
}

/// The body in the wrapper at the start of `buf`.
pub open spec fn body_of(buf: Seq<u8>) -> Seq<u8> {
    buf.subrange(HDR_LEN as int, wrapper_len(buf) - CHKSUM_LEN)
}

/// `buf` starts with a whole wrapper whose checksum is right.
pub open spec fn wrapper_ok(buf: Seq<u8>) -> bool {
    &&& buf.len() >= MIN_FRAME
    &&& buf.len() >= wrapper_len(buf)
    &&& checksum_ok(buf.take(wrapper_len(buf)))
}

/// The message at the start of `buf`, if the wrapper is whole, its checksum is
/// right, the body holds the identification fields and the vehicle passes the
/// filter.
pub open spec fn frame_message(buf: Seq<u8>, vehicle_id_filter: i32) -> Option<Stanag4586Msg> {
    if wrapper_ok(buf) && body_of(buf).len() >= 16 && passes(
        vehicle_of(body_of(buf)),
        vehicle_id_filter,
    ) {
        body_message(u32_be_at(buf, 18), body_of(buf))
    } else {
        None
    }
}

/// Parses the wrapper in the first `len` bytes of `buf`. `None` if it is cut
/// short, its checksum is wrong, it comes from a vehicle that does not pass the
/// filter or the message is not supported.
pub fn parse_frame(buf: &[u8], len: usize, vehicle_id_filter: i32) -> (r: Option<Stanag4586Msg>)
    requires
        len <= buf.len(),
    ensures
        r == frame_message(buf@.take(len as int), vehicle_id_filter),
{
    let buf = slice_subrange(buf, 0, len);
    if buf.len() < MIN_FRAME {
        return None;
    }
    let msg_type: u32 = match read_u32_be(buf, 18) {
        Some(t) => t,
        None => {
            return None;
        },
    };
    let body_len: u32 = match read_u32_be(buf, 22) {
        Some(n) => n,
        None => {
            return None;
        },
    };
    if ((buf.len() - MIN_FRAME) as u64) < body_len as u64 {
        return None;
    }
    let body_end: usize = HDR_LEN + body_len as usize;
    if !verify_checksum(slice_subrange(buf, 0, body_end + CHKSUM_LEN)) {
        return None;
    }
    let body = slice_subrange(buf, HDR_LEN, body_end);
    if body.len() < 16 {
        return None;
    }
    let vehicle_id: i32 = match read_u32_be(body, 8) {
        Some(v) => to_signed32(v),
        None => {
            return None;
        },
    };
    if vehicle_id_filter != 0 && vehicle_id != vehicle_id_filter {
        return None;
    }
    if msg_type == MSG_INERTIAL {
        decode_101(body)
    } else if msg_type == MSG_AIR_GROUND {
        decode_102(body)
    } else if msg_type == MSG_BODY_SENSED {
        decode_103(body)
    } else {
        None
    }
}

/// `state` is what Inertial States says of the platform, the altitude in double
/// precision.
pub open spec fn describes(s: InertialStates, state: PlatformState) -> bool {
    &&& same_number(s.alt_m, state.alt_m)
    &&& state == PlatformState {
        lat_rad: s.lat_rad,
        lon_rad: s.lon_rad,
        alt_m: state.alt_m,
        roll_rad: s.roll_rad,
        pitch_rad: s.pitch_rad,
        yaw_rad: s.yaw_rad,
        vel_north_m_s: s.vel_north_m_s,
        vel_east_m_s: s.vel_east_m_s,
        vel_down_m_s: s.vel_down_m_s,
    }
}

/// The platform state that `msg` carries. Only Inertial States carries one.
pub fn platform_state(msg: &Stanag4586Msg) -> (r: Option<PlatformState>)
    ensures
        match *msg {
            Stanag4586Msg::InertialStates(s) => r matches Some(state) && describes(s, state),
            _ => r is None,
        },
        r is Some <==> *msg is InertialStates,
        r matches Some(state) ==> {
            &&& state.lat_rad == msg->InertialStates_0.lat_rad
            &&& state.lon_rad == msg->InertialStates_0.lon_rad
            &&& same_number(msg->InertialStates_0.alt_m, state.alt_m)
            &&& state.roll_rad == msg->InertialStates_0.roll_rad
            &&& state.pitch_rad == msg->InertialStates_0.pitch_rad
            &&& state.yaw_rad == msg->InertialStates_0.yaw_rad
            &&& state.vel_north_m_s == msg->InertialStates_0.vel_north_m_s
            &&& state.vel_east_m_s == msg->InertialStates_0.vel_east_m_s
            &&& state.vel_down_m_s == msg->InertialStates_0.vel_down_m_s
        },
{
    match msg {
        Stanag4586Msg::InertialStates(s) => Some(
            PlatformState {
                lat_rad: s.lat_rad,
                lon_rad: s.lon_rad,
                alt_m: widen(s.alt_m),
                roll_rad: s.roll_rad,
                pitch_rad: s.pitch_rad,
                yaw_rad: s.yaw_rad,
                vel_north_m_s: s.vel_north_m_s,
                vel_east_m_s: s.vel_east_m_s,
                vel_down_m_s: s.vel_down_m_s,
            },
        ),
        _ => None,
    }
}

/// Where messages come from.
#[derive(Debug)]
pub struct Stanag4586Source {
    /// UDP port.
    pub port: u16,
    /// Multicast group to join.
    pub multicast_group: String,
    /// Vehicle whose messages are used; 0 for all.
    pub vehicle_id_filter: i32,
}

impl Stanag4586Source {
    /// A source on `port` of `multicast_group`.
    pub fn new(port: u16, multicast_group: String, vehicle_id_filter: i32) -> (r: Self)
        ensures
            r.port == port,
            r.multicast_group == multicast_group,
            r.vehicle_id_filter == vehicle_id_filter,
    {
        Stanag4586Source { port, multicast_group, vehicle_id_filter }
    }
}

// ── Laws ───────────────────────────────────────────────────────────────

/// Everything in a wrapper but its checksum.
pub open spec fn unsealed(
    version: Seq<u8>,
    instance: u32,
    spare: u32,
    msg_type: u32,
    stream: u32,
    sequence: u32,
    body: Seq<u8>,
) -> Seq<u8> {
    version + u32_be(instance) + u32_be(spare) + u32_be(msg_type) + u32_be(body.len() as u32)
        + u32_be(stream) + u32_be(sequence) + body
}

/// `content` followed by its checksum.
pub open spec fn sealed(content: Seq<u8>) -> Seq<u8> {
    content + u32_be((byte_sum(content) % 0x1_0000_0000) as u32)
}

/// A well-formed wrapper gives the message in its body, whatever follows it, if
/// the vehicle passes the filter, and nothing otherwise.
pub proof fn wrapper_delivers(
    version: Seq<u8>,
    instance: u32,
    spare: u32,
    msg_type: u32,
    stream: u32,
    sequence: u32,
    body: Seq<u8>,
    rest: Seq<u8>,
    vehicle_id_filter: i32,
)
    requires
        version.len() == 10,
        16 <= body.len() <= u32::MAX,
    ensures
        frame_message(
            sealed(unsealed(version, instance, spare, msg_type, stream, sequence, body)) + rest,
            vehicle_id_filter,
        ) == (if passes(vehicle_of(body), vehicle_id_filter) {
            body_message(msg_type, body)
        } else {
            None
        }),
{
    let content = unsealed(version, instance, spare, msg_type, stream, sequence, body);
    let sum = (byte_sum(content) % 0x1_0000_0000) as u32;
    let frame = sealed(content);
    let all = frame + rest;
    let n = frame.len() as int;
    assert(n == 38 + body.len());
    assert(all.subrange(18, 22) =~= u32_be(msg_type));
    assert(all.subrange(22, 26) =~= u32_be(body.len() as u32));
    u32_be_roundtrip(all, 18, msg_type);
    u32_be_roundtrip(all, 22, body.len() as u32);
    assert(all.take(n) =~= frame);
    assert(frame.take(n - 4) =~= content);
    assert(frame.subrange(n - 4, n) =~= u32_be(sum));
    u32_be_roundtrip(frame, n - 4, sum);
    assert(body_of(all) =~= body);
}

/// The sum after one byte is replaced.
pub proof fn byte_sum_update(s: Seq<u8>, i: int, b: u8)
    requires
        0 <= i < s.len(),
    ensures
        byte_sum(s.update(i, b)) == byte_sum(s) - s[i] + b,
    decreases s.len(),
{
    let t = s.update(i, b);
    if i == s.len() - 1 {
        assert(t.drop_last() =~= s.drop_last());
    } else {
        byte_sum_update(s.drop_last(), i, b);
        assert(t.drop_last() =~= s.drop_last().update(i, b));
    }
}

/// Sums that differ by less than a byte differ modulo 2^32 as well.
proof fn lemma_sums_differ(x: int, y: int)
    requires
        x != y,
        -0x100 < x - y < 0x100,
    ensures
        x % 0x1_0000_0000 != y % 0x1_0000_0000,
{
    let (p, q) = (x / 0x1_0000_0000, y / 0x1_0000_0000);
    if x % 0x1_0000_0000 == y % 0x1_0000_0000 {
        assert(x - y == 0x1_0000_0000 * (p - q));
    }
}

/// An integer with one byte replaced is another integer.
proof fn lemma_field_differs(s: Seq<u8>, o: int, i: int, b: u8)
    requires
        0 <= o <= i < o + 4 <= s.len(),
        b != s[i],
    ensures
        u32_be_at(s.update(i, b), o) != u32_be_at(s, o),
{
    let t = s.update(i, b);
    assert(forall|j: int| o <= j < o + 4 && j != i ==> t[j] == s[j]);
    assert(t[i] == b);
    assert(i == o || i == o + 1 || i == o + 2 || i == o + 3);
}

/// Where one byte is damaged, the checksum is wrong.
proof fn lemma_checksum_breaks(frame: Seq<u8>, i: int, b: u8)
    requires
        checksum_ok(frame),
        0 <= i < frame.len(),
        b != frame[i],
    ensures
        !checksum_ok(frame.update(i, b)),
{
    let n = frame.len() as int;
    let bad = frame.update(i, b);
    let content = frame.take(n - 4);
    if i < n - 4 {
        byte_sum_update(content, i, b);
        assert(bad.take(n - 4) =~= content.update(i, b));
        lemma_sums_differ(byte_sum(content) as int, byte_sum(bad.take(n - 4)) as int);
        assert(u32_be_at(bad, n - 4) == u32_be_at(frame, n - 4));
    } else {
        assert(bad.take(n - 4) =~= content);
        lemma_field_differs(frame, n - 4, i, b);
    }
}

/// A wrapper with one damaged byte is rejected, unless the damage is in the
/// length field.
pub proof fn damaged_byte_rejected(frame: Seq<u8>, i: int, b: u8, vehicle_id_filter: i32)
    requires
        wrapper_ok(frame),
        frame.len() == wrapper_len(frame),
        0 <= i < frame.len(),
        !(22 <= i < 26),
        b != frame[i],
    ensures
        frame_message(frame.update(i, b), vehicle_id_filter) is None,
{
    let n = frame.len() as int;
    let bad = frame.update(i, b);
    assert(u32_be_at(bad, 22) == u32_be_at(frame, 22));
    assert(frame.take(n) =~= frame);
    assert(bad.take(n) =~= bad);
    lemma_checksum_breaks(frame, i, b);
}

/// Inertial States are read from where they stand in the body: latitude at 16,
/// longitude at 24, altitude at 32, the speeds north, east and down at 37, 41 and 45,
/// roll, pitch and yaw at 61, 65 and 69.
#[verifier::rlimit(40)]
pub proof fn inertial_states_read_back(body: Seq<u8>, s: InertialStates)
    requires
        body.len() >= 89,
        body.subrange(16, 24) == u64_be(s.lat_rad.bits),
        body.subrange(24, 32) == u64_be(s.lon_rad.bits),
        body.subrange(32, 36) == u32_be(s.alt_m.bits),
        body.subrange(37, 41) == u32_be(s.vel_north_m_s.bits),
        body.subrange(41, 45) == u32_be(s.vel_east_m_s.bits),
        body.subrange(45, 49) == u32_be(s.vel_down_m_s.bits),
        body.subrange(61, 65) == u32_be(s.roll_rad.bits),
        body.subrange(65, 69) == u32_be(s.pitch_rad.bits),
        body.subrange(69, 73) == u32_be(s.yaw_rad.bits),
    ensures
        body_message(101, body) == Some(Stanag4586Msg::InertialStates(s)),
{
    u64_be_roundtrip(body, 16, s.lat_rad.bits);
    u64_be_roundtrip(body, 24, s.lon_rad.bits);
    u32_be_roundtrip(body, 32, s.alt_m.bits);
    u32_be_roundtrip(body, 37, s.vel_north_m_s.bits);
    u32_be_roundtrip(body, 41, s.vel_east_m_s.bits);
    u32_be_roundtrip(body, 45, s.vel_down_m_s.bits);
    u32_be_roundtrip(body, 61, s.roll_rad.bits);
    u32_be_roundtrip(body, 65, s.pitch_rad.bits);
    u32_be_roundtrip(body, 69, s.yaw_rad.bits);
}

/// What each type of message is, and how long its body has to be at least.
pub proof fn message_types(msg_type: u32, body: Seq<u8>)
    ensures
        ({
            let m = body_message(msg_type, body);
            &&& (m matches Some(Stanag4586Msg::InertialStates(_))) <==> msg_type == 101 && body.len()
                >= 89
            &&& (m matches Some(Stanag4586Msg::AirGroundRelative)) <==> msg_type == 102 && body.len()
                >= 76
            &&& (m matches Some(Stanag4586Msg::BodySensed)) <==> msg_type == 103 && body.len() >= 40
        }),
{
}

/// The state that a message describes has each coordinate, angle and speed of the
/// message in its own field.
pub proof fn described_field_by_field(s: InertialStates, state: PlatformState)
    requires
        describes(s, state),
    ensures
        state.lat_rad == s.lat_rad,
        state.lon_rad == s.lon_rad,
        same_number(s.alt_m, state.alt_m),
        state.roll_rad == s.roll_rad,
        state.pitch_rad == s.pitch_rad,
        state.yaw_rad == s.yaw_rad,
        state.vel_north_m_s == s.vel_north_m_s,
        state.vel_east_m_s == s.vel_east_m_s,
        state.vel_down_m_s == s.vel_down_m_s,
{
}

/// The vehicle stands at 8 in the body, in two's complement.
pub proof fn vehicle_read_back(body: Seq<u8>, bits: u32, vehicle: i32)
    requires
        body.len() >= 12,
        body.subrange(8, 12) == u32_be(bits),
        vehicle as int == if vehicle < 0 { bits - 0x1_0000_0000 } else { bits as int },
    ensures
        vehicle_of(body) == vehicle,
{
    u32_be_roundtrip(body, 8, bits);
}

/// Filter 0 lets every vehicle pass, and any other filter its own vehicle alone.
pub proof fn filter_selects_vehicle(vehicle: i32, vehicle_id_filter: i32)
    ensures
        vehicle_id_filter == 0 ==> passes(vehicle, vehicle_id_filter),
        vehicle_id_filter != 0 ==> (passes(vehicle, vehicle_id_filter) <==> vehicle
            == vehicle_id_filter),
{
}

/// A sum is the sum of its parts, and that of one byte is the byte.
pub proof fn byte_sum_adds(a: Seq<u8>, b: Seq<u8>, byte: u8)
    ensures
        byte_sum(a + b) == byte_sum(a) + byte_sum(b),
        byte_sum(seq![byte]) == byte,
        byte_sum(Seq::<u8>::empty()) == 0,
    decreases b.len(),
{
    reveal_with_fuel(byte_sum, 2);
    assert(seq![byte].drop_last() =~= Seq::<u8>::empty());
    if b.len() == 0 {
        assert(a + b =~= a);
    } else {
        byte_sum_adds(a, b.drop_last(), byte);
        assert((a + b).drop_last() =~= a + b.drop_last());
    }
}

/// A wrapper that is cut short anywhere gives nothing.
pub proof fn short_wrapper_rejected(frame: Seq<u8>, n: int, vehicle_id_filter: i32)
    requires
        wrapper_ok(frame),
        0 <= n < wrapper_len(frame),
    ensures
        frame_message(frame.take(n), vehicle_id_filter) is None,
{
    let cut = frame.take(n);
    if n >= MIN_FRAME {
        assert(u32_be_at(cut, 22) == u32_be_at(frame, 22));
    }
}

} // verus!
