//! CIGI v3.3 messages. All fields are little-endian.

use vstd::prelude::*;

use crate::bits::{F32Bits, F64Bits};
use crate::bytes::{
    put_u16_le, put_u32_le, put_u64_le, put_zeros, read_f32_le, read_f64_le, read_u16_le,
    read_u32_le, read_u8, signed16, signed8, to_signed16, to_signed8, to_unsigned16, u16_le,
    u16_le_at, u16_le_roundtrip, u32_le, u32_le_at, u32_le_roundtrip, u64_le, u64_le_at,
    u64_le_roundtrip, unsigned16, zeros,
};

verus! {

/// A flag bit with the given weight.
pub open spec fn flag(set: bool, weight: int) -> int {
    if set {
        weight
    } else {
        0
    }
}

/// The bit of `byte` with the given weight.
pub open spec fn has_flag(byte: u8, weight: int) -> bool {
    byte as int / weight % 2 == 1
}

/// A flag bit with the given weight.
fn bit(set: bool, weight: u8) -> (r: u8)
    ensures
        r == flag(set, weight as int),
{
    if set {
        weight
    } else {
        0
    }
}

// ── Host to image generator ────────────────────────────────────────────

/// IG Control (type 1, 24 bytes).
#[derive(Debug, Clone, Copy, PartialEq, Eq, Structural)]
pub struct IgControl {
    /// Two bits.
    pub ig_mode: u8,
    pub timestamp_valid: bool,
    pub extrapolation_enable: bool,
    pub minor_version: u8,
    pub db_number: i16,
    pub last_rcvd_ig_frame_ctr: u16,
    pub frame_ctr: u32,
    pub timestamp: F64Bits,
}

impl Default for IgControl {
    fn default() -> (r: Self)
        ensures
            r == IgControl::spec_default(),
    {
        IgControl {
            ig_mode: 0,
            timestamp_valid: false,
            extrapolation_enable: false,
            minor_version: 0,
            db_number: 0,
            last_rcvd_ig_frame_ctr: 0,
            frame_ctr: 0,
            timestamp: F64Bits { bits: 0 },
        }
    }
}

impl IgControl {
    pub const TYPE_ID: u8 = 1;

    /// All fields zero.
    pub open spec fn spec_default() -> IgControl {
        IgControl {
            ig_mode: 0,
            timestamp_valid: false,
            extrapolation_enable: false,
            minor_version: 0,
            db_number: 0,
            last_rcvd_ig_frame_ctr: 0,
            frame_ctr: 0,
            timestamp: F64Bits { bits: 0 },
        }
    }

    /// The 24 bytes of the message.
    #[verifier::opaque]
    pub open spec fn spec_encode(self) -> Seq<u8> {
        seq![
            1u8,
            24u8,
            (self.ig_mode % 4 * 64 + flag(self.extrapolation_enable, 2) + flag(
                self.timestamp_valid,
                1,
            )) as u8,
            self.minor_version,
        ] + u16_le(unsigned16(self.db_number)) + u16_le(self.last_rcvd_ig_frame_ctr) + u32_le(
            self.frame_ctr,
        ) + u64_le(self.timestamp.bits) + zeros(4)
    }

    /// The message in a packet of at least 24 bytes.
    pub open spec fn spec_decode(buf: Seq<u8>) -> Option<IgControl> {
        if buf.len() < 24 {
            None
        } else {
            Some(
                IgControl {
                    ig_mode: buf[2] / 64,
                    timestamp_valid: has_flag(buf[2], 1),
                    extrapolation_enable: has_flag(buf[2], 2),
                    minor_version: buf[3],
                    db_number: signed16(u16_le_at(buf, 4)),
                    last_rcvd_ig_frame_ctr: u16_le_at(buf, 6),
                    frame_ctr: u32_le_at(buf, 8),
                    timestamp: F64Bits { bits: u64_le_at(buf, 12) },
                },
            )
        }
    }

    /// Encodes the message.
    pub fn encode(&self) -> (r: Vec<u8>)
        ensures
            r@ == self.spec_encode(),
            r@.len() == 24,
    {
        let mut out: Vec<u8> = Vec::new();
        out.push(IgControl::TYPE_ID);
        out.push(24);
        out.push(
            self.ig_mode % 4 * 64 + bit(self.extrapolation_enable, 2) + bit(self.timestamp_valid, 1),
        );
        out.push(self.minor_version);
        put_u16_le(&mut out, to_unsigned16(self.db_number));
        put_u16_le(&mut out, self.last_rcvd_ig_frame_ctr);
        put_u32_le(&mut out, self.frame_ctr);
        put_u64_le(&mut out, self.timestamp.bits);
        put_zeros(&mut out, 4);
        proof {
            reveal(IgControl::spec_encode);
            assert(out@ =~= self.spec_encode());
        }
        out
    }

    /// Decodes the message; `None` if the packet is too short.
    pub fn decode(buf: &[u8]) -> (r: Option<Self>)
        ensures
            r == IgControl::spec_decode(buf@),
    {
        if buf.len() < 24 {
            return None;
        }
        let flags: u8 = buf[2];
        Some(
            IgControl {
                ig_mode: flags / 64,
                timestamp_valid: flags % 2 == 1,
                extrapolation_enable: flags / 2 % 2 == 1,
                minor_version: buf[3],
                db_number: to_signed16(read_u16_le(buf, 4)?),
                last_rcvd_ig_frame_ctr: read_u16_le(buf, 6)?,
                frame_ctr: read_u32_le(buf, 8)?,
                timestamp: read_f64_le(buf, 12)?,
            },
        )
    }
}

/// Entity Control (type 2, 48 bytes).
#[derive(Debug, Clone, Copy, PartialEq, Eq, Structural)]
pub struct EntityControl {
    pub entity_id: u16,
    /// Two bits.
    pub entity_state: u8,
    pub attach_state: bool,
    pub collision_detect: bool,
    pub inherit_alpha: bool,
    pub ground_occlude_clamped: bool,
    pub animation_dir: bool,
    /// Two bits.
    pub animation_mode: u8,
    /// Two bits.
    pub animation_state: u8,
    pub alpha: u8,
    pub entity_type: u16,
    pub parent_id: u16,
    pub roll: F32Bits,
    pub pitch: F32Bits,
    pub yaw: F32Bits,
    pub lat_or_x: F64Bits,
    pub lon_or_y: F64Bits,
    pub alt_or_z: F64Bits,
}

impl Default for EntityControl {
    fn default() -> (r: Self)
        ensures
            r == EntityControl::spec_default(),
    {
        EntityControl {
            entity_id: 0,
            entity_state: 0,
            attach_state: false,
            collision_detect: false,
            inherit_alpha: false,
            ground_occlude_clamped: false,
            animation_dir: false,
            animation_mode: 0,
            animation_state: 0,
            alpha: 0,
            entity_type: 0,
            parent_id: 0,
            roll: F32Bits { bits: 0 },
            pitch: F32Bits { bits: 0 },
            yaw: F32Bits { bits: 0 },
            lat_or_x: F64Bits { bits: 0 },
            lon_or_y: F64Bits { bits: 0 },
            alt_or_z: F64Bits { bits: 0 },
        }
    }
}

impl EntityControl {
    pub const TYPE_ID: u8 = 2;

    /// All fields zero.
    pub open spec fn spec_default() -> EntityControl {
        EntityControl {
            entity_id: 0,
            entity_state: 0,
            attach_state: false,
            collision_detect: false,
            inherit_alpha: false,
            ground_occlude_clamped: false,
            animation_dir: false,
            animation_mode: 0,
            animation_state: 0,
            alpha: 0,
            entity_type: 0,
            parent_id: 0,
            roll: F32Bits { bits: 0 },
            pitch: F32Bits { bits: 0 },
            yaw: F32Bits { bits: 0 },
            lat_or_x: F64Bits { bits: 0 },
            lon_or_y: F64Bits { bits: 0 },
            alt_or_z: F64Bits { bits: 0 },
        }
    }

    /// The 48 bytes of the message.
    #[verifier::opaque]
    pub open spec fn spec_encode(self) -> Seq<u8> {
        seq![2u8, 48u8] + u16_le(self.entity_id) + seq![
            (self.entity_state % 4 + flag(self.attach_state, 4) + flag(self.collision_detect, 8)
                + flag(self.inherit_alpha, 16) + flag(self.ground_occlude_clamped, 32) + flag(
                self.animation_dir,
                64,
            )) as u8,
            (self.animation_mode % 4 + self.animation_state % 4 * 4) as u8,
            self.alpha,
            0u8,
        ] + u16_le(self.entity_type) + u16_le(self.parent_id) + u32_le(self.roll.bits) + u32_le(
            self.pitch.bits,
        ) + u32_le(self.yaw.bits) + u64_le(self.lat_or_x.bits) + u64_le(self.lon_or_y.bits)
            + u64_le(self.alt_or_z.bits)
    }

    /// The message in a packet of at least 48 bytes.
    pub open spec fn spec_decode(buf: Seq<u8>) -> Option<EntityControl> {
        if buf.len() < 48 {
            None
        } else {
            Some(
                EntityControl {
                    entity_id: u16_le_at(buf, 2),
                    entity_state: buf[4] % 4,
                    attach_state: has_flag(buf[4], 4),
                    collision_detect: has_flag(buf[4], 8),
                    inherit_alpha: has_flag(buf[4], 16),
                    ground_occlude_clamped: has_flag(buf[4], 32),
                    animation_dir: has_flag(buf[4], 64),
                    animation_mode: buf[5] % 4,
                    animation_state: buf[5] / 4 % 4,
                    alpha: buf[6],
                    entity_type: u16_le_at(buf, 8),
                    parent_id: u16_le_at(buf, 10),
                    roll: F32Bits { bits: u32_le_at(buf, 12) },
                    pitch: F32Bits { bits: u32_le_at(buf, 16) },
                    yaw: F32Bits { bits: u32_le_at(buf, 20) },
                    lat_or_x: F64Bits { bits: u64_le_at(buf, 24) },
                    lon_or_y: F64Bits { bits: u64_le_at(buf, 32) },
                    alt_or_z: F64Bits { bits: u64_le_at(buf, 40) },
                },
            )
        }
    }

    /// Encodes the message.
    pub fn encode(&self) -> (r: Vec<u8>)
        ensures
            r@ == self.spec_encode(),
            r@.len() == 48,
    {
        let mut out: Vec<u8> = Vec::new();
        out.push(EntityControl::TYPE_ID);
        out.push(48);
        put_u16_le(&mut out, self.entity_id);
        out.push(
            self.entity_state % 4 + bit(self.attach_state, 4) + bit(self.collision_detect, 8) + bit(
                self.inherit_alpha,
                16,
            ) + bit(self.ground_occlude_clamped, 32) + bit(self.animation_dir, 64),
        );
        out.push(self.animation_mode % 4 + self.animation_state % 4 * 4);
        out.push(self.alpha);
        out.push(0);
        put_u16_le(&mut out, self.entity_type);
        put_u16_le(&mut out, self.parent_id);
        put_u32_le(&mut out, self.roll.bits);
        put_u32_le(&mut out, self.pitch.bits);
        put_u32_le(&mut out, self.yaw.bits);
        put_u64_le(&mut out, self.lat_or_x.bits);
        put_u64_le(&mut out, self.lon_or_y.bits);
        put_u64_le(&mut out, self.alt_or_z.bits);
        proof {
            reveal(EntityControl::spec_encode);
            assert(out@ =~= self.spec_encode());
        }
        out
    }

    /// Decodes the message; `None` if the packet is too short.
    pub fn decode(buf: &[u8]) -> (r: Option<Self>)
        ensures
            r == EntityControl::spec_decode(buf@),
    {
        if buf.len() < 48 {
            return None;
        }
        let flags: u8 = buf[4];
        Some(
            EntityControl {
                entity_id: read_u16_le(buf, 2)?,
                entity_state: flags % 4,
                attach_state: flags / 4 % 2 == 1,
                collision_detect: flags / 8 % 2 == 1,
                inherit_alpha: flags / 16 % 2 == 1,
                ground_occlude_clamped: flags / 32 % 2 == 1,
                animation_dir: flags / 64 % 2 == 1,
                animation_mode: buf[5] % 4,
                animation_state: buf[5] / 4 % 4,
                alpha: buf[6],
                entity_type: read_u16_le(buf, 8)?,
                parent_id: read_u16_le(buf, 10)?,
                roll: read_f32_le(buf, 12)?,
                pitch: read_f32_le(buf, 16)?,
                yaw: read_f32_le(buf, 20)?,
                lat_or_x: read_f64_le(buf, 24)?,
                lon_or_y: read_f64_le(buf, 32)?,
                alt_or_z: read_f64_le(buf, 40)?,
            },
        )
    }
}

/// Sensor Control (type 17, 24 bytes).
#[derive(Debug, Clone, Copy, PartialEq, Eq, Structural)]
pub struct SensorControl {
    pub view_id: u8,
    pub sensor_id: u8,
    /// 0 inactive, 1 active, 2 tracking, 4 geopoint (an extension of the standard).
    pub sensor_state: u8,
    pub polarity: bool,
    pub line_of_sight_enable: bool,
    /// Three bits.
    pub track_mode: u8,
    pub response_type: bool,
    pub auto_gain: bool,
    pub track_polarity: bool,
    pub gain: F32Bits,
    pub level: F32Bits,
    pub ac_coupling: F32Bits,
    pub noise: F32Bits,
}

impl Default for SensorControl {
    fn default() -> (r: Self)
        ensures
            r == SensorControl::spec_default(),
    {
        SensorControl {
            view_id: 0,
            sensor_id: 0,
            sensor_state: 0,
            polarity: false,
            line_of_sight_enable: false,
            track_mode: 0,
            response_type: false,
            auto_gain: false,
            track_polarity: false,
            gain: F32Bits { bits: 0 },
            level: F32Bits { bits: 0 },
            ac_coupling: F32Bits { bits: 0 },
            noise: F32Bits { bits: 0 },
        }
    }
}

impl SensorControl {
    pub const TYPE_ID: u8 = 17;

    /// All fields zero.
    pub open spec fn spec_default() -> SensorControl {
        SensorControl {
            view_id: 0,
            sensor_id: 0,
            sensor_state: 0,
            polarity: false,
            line_of_sight_enable: false,
            track_mode: 0,
            response_type: false,
            auto_gain: false,
            track_polarity: false,
            gain: F32Bits { bits: 0 },
            level: F32Bits { bits: 0 },
            ac_coupling: F32Bits { bits: 0 },
            noise: F32Bits { bits: 0 },
        }
    }

    /// The low four bits of the state byte. Geopoint takes the place of the
    /// polarity bit, and leaves polarity and line of sight out.
    pub open spec fn state_bits(self) -> int {
        if self.sensor_state == 4 {
            4
        } else {
            self.sensor_state % 4 + flag(self.polarity, 4) + flag(self.line_of_sight_enable, 8)
        }
    }

    /// The 24 bytes of the message.
    #[verifier::opaque]
    pub open spec fn spec_encode(self) -> Seq<u8> {
        seq![
            17u8,
            24u8,
            self.view_id,
            self.sensor_id,
            (self.state_bits() + self.track_mode % 8 * 16 + flag(self.response_type, 128)) as u8,
            (flag(self.auto_gain, 1) + flag(self.track_polarity, 2)) as u8,
        ] + u32_le(self.gain.bits) + u32_le(self.level.bits) + u32_le(self.ac_coupling.bits)
            + u32_le(self.noise.bits) + zeros(2)
    }

    /// The message in a packet of at least 24 bytes.
    pub open spec fn spec_decode(buf: Seq<u8>) -> Option<SensorControl> {
        if buf.len() < 24 {
            None
        } else {
            let geopoint = buf[4] % 8 == 4;
            Some(
                SensorControl {
                    view_id: buf[2],
                    sensor_id: buf[3],
                    sensor_state: if geopoint {
                        4
                    } else {
                        buf[4] % 4
                    },
                    polarity: !geopoint && has_flag(buf[4], 4),
                    line_of_sight_enable: has_flag(buf[4], 8),
                    track_mode: buf[4] / 16 % 8,
                    response_type: has_flag(buf[4], 128),
                    auto_gain: has_flag(buf[5], 1),
                    track_polarity: has_flag(buf[5], 2),
                    gain: F32Bits { bits: u32_le_at(buf, 6) },
                    level: F32Bits { bits: u32_le_at(buf, 10) },
                    ac_coupling: F32Bits { bits: u32_le_at(buf, 14) },
                    noise: F32Bits { bits: u32_le_at(buf, 18) },
                },
            )
        }
    }

    /// Encodes the message.
    pub fn encode(&self) -> (r: Vec<u8>)
        ensures
            r@ == self.spec_encode(),
            r@.len() == 24,
    {
        let state: u8 = if self.sensor_state == 4 {
            4
        } else {
            self.sensor_state % 4 + bit(self.polarity, 4) + bit(self.line_of_sight_enable, 8)
        };
        let mut out: Vec<u8> = Vec::new();
        out.push(SensorControl::TYPE_ID);
        out.push(24);
        out.push(self.view_id);
        out.push(self.sensor_id);
        out.push(state + self.track_mode % 8 * 16 + bit(self.response_type, 128));
        out.push(bit(self.auto_gain, 1) + bit(self.track_polarity, 2));
        put_u32_le(&mut out, self.gain.bits);
        put_u32_le(&mut out, self.level.bits);
        put_u32_le(&mut out, self.ac_coupling.bits);
        put_u32_le(&mut out, self.noise.bits);
        put_zeros(&mut out, 2);
        proof {
            reveal(SensorControl::spec_encode);
            assert(out@ =~= self.spec_encode());
        }
        out
    }

    /// Decodes the message; `None` if the packet is too short.
    pub fn decode(buf: &[u8]) -> (r: Option<Self>)
        ensures
            r == SensorControl::spec_decode(buf@),
    {
        if buf.len() < 24 {
            return None;
        }
        let state: u8 = buf[4];
        let flags: u8 = buf[5];
        let geopoint: bool = state % 8 == 4;
        Some(
            SensorControl {
                view_id: read_u8(buf, 2)?,
                sensor_id: read_u8(buf, 3)?,
                sensor_state: if geopoint {
                    4
                } else {
                    state % 4
                },
                polarity: !geopoint && state / 4 % 2 == 1,
                line_of_sight_enable: state / 8 % 2 == 1,
                track_mode: state / 16 % 8,
                response_type: state / 128 % 2 == 1,
                auto_gain: flags % 2 == 1,
                track_polarity: flags / 2 % 2 == 1,
                gain: read_f32_le(buf, 6)?,
                level: read_f32_le(buf, 10)?,
                ac_coupling: read_f32_le(buf, 14)?,
                noise: read_f32_le(buf, 18)?,
            },
        )
    }
}

// ── Image generator to host ────────────────────────────────────────────

/// Start Of Frame (type 101, 24 bytes).
#[derive(Debug, Clone, Copy, PartialEq, Eq, Structural)]
pub struct StartOfFrame {
    pub ig_status: u8,
    /// Two bits.
    pub ig_mode: u8,
    pub timestamp_valid: bool,
    pub earth_ref_model: bool,
    /// Four bits.
    pub minor_version: u8,
    /// Eight bits.
    pub db_number: i16,
    pub ig_frame_ctr: u32,
    /// Time in ticks of 10 microseconds.
    pub timestamp_10us: u64,
    pub last_host_frame_number: u32,
}

impl Default for StartOfFrame {
    fn default() -> (r: Self)
        ensures
            r == StartOfFrame::spec_default(),
    {
        StartOfFrame {
            ig_status: 0,
            ig_mode: 0,
            timestamp_valid: false,
            earth_ref_model: false,
            minor_version: 0,
            db_number: 0,
            ig_frame_ctr: 0,
            timestamp_10us: 0,
            last_host_frame_number: 0,
        }
    }
}

impl StartOfFrame {
    pub const TYPE_ID: u8 = 101;

    /// All fields zero.
    pub open spec fn spec_default() -> StartOfFrame {
        StartOfFrame {
            ig_status: 0,
            ig_mode: 0,
            timestamp_valid: false,
            earth_ref_model: false,
            minor_version: 0,
            db_number: 0,
            ig_frame_ctr: 0,
            timestamp_10us: 0,
            last_host_frame_number: 0,
        }
    }

    /// The 24 bytes of the message. Major version 3; the byte order mark 0x8000
    /// stands at offset 6; the low 8 bits of the database number and the low
    /// 32 bits of the time are kept.
    #[verifier::opaque]
    pub open spec fn spec_encode(self) -> Seq<u8> {
        seq![
            101u8,
            24u8,
            3u8,
            (unsigned16(self.db_number) % 0x100) as u8,
            self.ig_status,
            (self.minor_version % 16 * 16 + flag(self.earth_ref_model, 8) + flag(
                self.timestamp_valid,
                4,
            ) + self.ig_mode % 4) as u8,
        ] + u16_le(0x8000) + u32_le(self.ig_frame_ctr) + u32_le(
            (self.timestamp_10us % 0x1_0000_0000) as u32,
        ) + u32_le(self.last_host_frame_number) + zeros(4)
    }

    /// The message in a packet of at least 24 bytes.
    pub open spec fn spec_decode(buf: Seq<u8>) -> Option<StartOfFrame> {
        if buf.len() < 24 {
            None
        } else {
            Some(
                StartOfFrame {
                    ig_status: buf[4],
                    ig_mode: buf[5] % 4,
                    timestamp_valid: has_flag(buf[5], 4),
                    earth_ref_model: has_flag(buf[5], 8),
                    minor_version: buf[5] / 16,
                    db_number: signed8(buf[3]) as i16,
                    ig_frame_ctr: u32_le_at(buf, 8),
                    timestamp_10us: u32_le_at(buf, 12) as u64,
                    last_host_frame_number: u32_le_at(buf, 16),
                },
            )
        }
    }

    /// Encodes the message.
    pub fn encode(&self) -> (r: Vec<u8>)
        ensures
            r@ == self.spec_encode(),
            r@.len() == 24,
    {
        let mut out: Vec<u8> = Vec::new();
        out.push(StartOfFrame::TYPE_ID);
        out.push(24);
        out.push(3);
        out.push((to_unsigned16(self.db_number) % 0x100) as u8);
        out.push(self.ig_status);
        out.push(
            self.minor_version % 16 * 16 + bit(self.earth_ref_model, 8) + bit(
                self.timestamp_valid,
                4,
            ) + self.ig_mode % 4,
        );
        put_u16_le(&mut out, 0x8000);
        put_u32_le(&mut out, self.ig_frame_ctr);
        put_u32_le(&mut out, (self.timestamp_10us % 0x1_0000_0000) as u32);
        put_u32_le(&mut out, self.last_host_frame_number);
        put_zeros(&mut out, 4);
        proof {
            reveal(StartOfFrame::spec_encode);
            assert(out@ =~= self.spec_encode());
        }
        out
    }

    /// Decodes the message; `None` if the packet is too short.
    pub fn decode(buf: &[u8]) -> (r: Option<Self>)
        ensures
            r == StartOfFrame::spec_decode(buf@),
    {
        if buf.len() < 24 {
            return None;
        }
        let flags: u8 = buf[5];
        Some(
            StartOfFrame {
                ig_status: buf[4],
                ig_mode: flags % 4,
                timestamp_valid: flags / 4 % 2 == 1,
                earth_ref_model: flags / 8 % 2 == 1,
                minor_version: flags / 16,
                db_number: to_signed8(buf[3]) as i16,
                ig_frame_ctr: read_u32_le(buf, 8)?,
                timestamp_10us: read_u32_le(buf, 12)? as u64,
                last_host_frame_number: read_u32_le(buf, 16)?,
            },
        )
    }
}

/// Sensor Extended Response (type 107, 48 bytes).
#[derive(Debug, Clone, Copy, PartialEq, Eq, Structural)]
pub struct SensorExtendedResponse {
    pub view_id: u16,
    pub sensor_id: u8,
    /// Two bits.
    pub sensor_status: u8,
    pub gate_x_size: u16,
    pub gate_y_size: u16,
    pub gate_x_pos: F32Bits,
    pub gate_y_pos: F32Bits,
    pub frame_ctr: u32,
    pub entity_id_valid: bool,
    pub entity_id: u16,
    pub entity_lat: F64Bits,
    pub entity_lon: F64Bits,
    pub entity_alt: F64Bits,
}

impl Default for SensorExtendedResponse {
    fn default() -> (r: Self)
        ensures
            r == SensorExtendedResponse::spec_default(),
    {
        SensorExtendedResponse {
            view_id: 0,
            sensor_id: 0,
            sensor_status: 0,
            gate_x_size: 0,
            gate_y_size: 0,
            gate_x_pos: F32Bits { bits: 0 },
            gate_y_pos: F32Bits { bits: 0 },
            frame_ctr: 0,
            entity_id_valid: false,
            entity_id: 0,
            entity_lat: F64Bits { bits: 0 },
            entity_lon: F64Bits { bits: 0 },
            entity_alt: F64Bits { bits: 0 },
        }
    }
}

impl SensorExtendedResponse {
    pub const TYPE_ID: u8 = 107;

    /// All fields zero.
    pub open spec fn spec_default() -> SensorExtendedResponse {
        SensorExtendedResponse {
            view_id: 0,
            sensor_id: 0,
            sensor_status: 0,
            gate_x_size: 0,
            gate_y_size: 0,
            gate_x_pos: F32Bits { bits: 0 },
            gate_y_pos: F32Bits { bits: 0 },
            frame_ctr: 0,
            entity_id_valid: false,
            entity_id: 0,
            entity_lat: F64Bits { bits: 0 },
            entity_lon: F64Bits { bits: 0 },
            entity_alt: F64Bits { bits: 0 },
        }
    }

    /// The message in a packet of at least 48 bytes.
    pub open spec fn spec_decode(buf: Seq<u8>) -> Option<SensorExtendedResponse> {
        if buf.len() < 48 {
            None
        } else {
            Some(
                SensorExtendedResponse {
                    view_id: u16_le_at(buf, 2),
                    sensor_id: buf[4],
                    sensor_status: buf[5] % 4,
                    entity_id_valid: has_flag(buf[5], 4),
                    entity_id: u16_le_at(buf, 6),
                    gate_x_size: u16_le_at(buf, 8),
                    gate_y_size: u16_le_at(buf, 10),
                    gate_x_pos: F32Bits { bits: u32_le_at(buf, 12) },
                    gate_y_pos: F32Bits { bits: u32_le_at(buf, 16) },
                    frame_ctr: u32_le_at(buf, 20),
                    entity_lat: F64Bits { bits: u64_le_at(buf, 24) },
                    entity_lon: F64Bits { bits: u64_le_at(buf, 32) },
                    entity_alt: F64Bits { bits: u64_le_at(buf, 40) },
                },
            )
        }
    }

    /// Decodes the message; `None` if the packet is too short.
    pub fn decode(buf: &[u8]) -> (r: Option<Self>)
        ensures
            r == SensorExtendedResponse::spec_decode(buf@),
    {
        if buf.len() < 48 {
            return None;
        }
        let flags: u8 = read_u8(buf, 5)?;
        Some(
            SensorExtendedResponse {
                view_id: read_u16_le(buf, 2)?,
                sensor_id: read_u8(buf, 4)?,
                sensor_status: flags % 4,
                entity_id_valid: flags / 4 % 2 == 1,
                entity_id: read_u16_le(buf, 6)?,
                gate_x_size: read_u16_le(buf, 8)?,
                gate_y_size: read_u16_le(buf, 10)?,
                gate_x_pos: read_f32_le(buf, 12)?,
                gate_y_pos: read_f32_le(buf, 16)?,
                frame_ctr: read_u32_le(buf, 20)?,
                entity_lat: read_f64_le(buf, 24)?,
                entity_lon: read_f64_le(buf, 32)?,
                entity_alt: read_f64_le(buf, 40)?,
            },
        )
    }
}

// ── Laws ───────────────────────────────────────────────────────────────

/// Decoding gives back an encoded IG Control whose mode fits its two bits.
pub proof fn ig_control_roundtrip(m: IgControl)
    requires
        m.ig_mode <= 3,
    ensures
        m.spec_encode().len() == 24,
        m.spec_encode()[0] == IgControl::TYPE_ID,
        m.spec_encode()[1] == 24,
        IgControl::spec_decode(m.spec_encode()) == Some(m),
{
    reveal(IgControl::spec_encode);
    let s = m.spec_encode();
    assert(s.subrange(4, 6) =~= u16_le(unsigned16(m.db_number)));
    assert(s.subrange(6, 8) =~= u16_le(m.last_rcvd_ig_frame_ctr));
    assert(s.subrange(8, 12) =~= u32_le(m.frame_ctr));
    assert(s.subrange(12, 20) =~= u64_le(m.timestamp.bits));
    u16_le_roundtrip(s, 4, unsigned16(m.db_number));
    u16_le_roundtrip(s, 6, m.last_rcvd_ig_frame_ctr);
    u32_le_roundtrip(s, 8, m.frame_ctr);
    u64_le_roundtrip(s, 12, m.timestamp.bits);
}

/// The bits of a byte made of a two-bit field and five flags above it.
proof fn two_bits_and_flags(x: u8, a: bool, b: bool, c: bool, d: bool, e: bool, byte: u8)
    requires
        x <= 3,
        byte == x + flag(a, 4) + flag(b, 8) + flag(c, 16) + flag(d, 32) + flag(e, 64),
    ensures
        byte % 4 == x,
        has_flag(byte, 4) == a,
        has_flag(byte, 8) == b,
        has_flag(byte, 16) == c,
        has_flag(byte, 32) == d,
        has_flag(byte, 64) == e,
{
}

/// Decoding gives back an encoded Entity Control whose states and mode fit their
/// two bits.
#[verifier::rlimit(40)]
pub proof fn entity_control_roundtrip(m: EntityControl)
    requires
        m.entity_state <= 3,
        m.animation_mode <= 3,
        m.animation_state <= 3,
    ensures
        m.spec_encode().len() == 48,
        m.spec_encode()[0] == EntityControl::TYPE_ID,
        m.spec_encode()[1] == 48,
        EntityControl::spec_decode(m.spec_encode()) == Some(m),
{
    reveal(EntityControl::spec_encode);
    let s = m.spec_encode();
    assert(s.len() == 48);
    two_bits_and_flags(
        m.entity_state,
        m.attach_state,
        m.collision_detect,
        m.inherit_alpha,
        m.ground_occlude_clamped,
        m.animation_dir,
        s[4],
    );
    assert(s.subrange(2, 4) =~= u16_le(m.entity_id));
    assert(s.subrange(8, 10) =~= u16_le(m.entity_type));
    assert(s.subrange(10, 12) =~= u16_le(m.parent_id));
    assert(s.subrange(12, 16) =~= u32_le(m.roll.bits));
    assert(s.subrange(16, 20) =~= u32_le(m.pitch.bits));
    assert(s.subrange(20, 24) =~= u32_le(m.yaw.bits));
    assert(s.subrange(24, 32) =~= u64_le(m.lat_or_x.bits));
    assert(s.subrange(32, 40) =~= u64_le(m.lon_or_y.bits));
    assert(s.subrange(40, 48) =~= u64_le(m.alt_or_z.bits));
    u16_le_roundtrip(s, 2, m.entity_id);
    u16_le_roundtrip(s, 8, m.entity_type);
    u16_le_roundtrip(s, 10, m.parent_id);
    u32_le_roundtrip(s, 12, m.roll.bits);
    u32_le_roundtrip(s, 16, m.pitch.bits);
    u32_le_roundtrip(s, 20, m.yaw.bits);
    u64_le_roundtrip(s, 24, m.lat_or_x.bits);
    u64_le_roundtrip(s, 32, m.lon_or_y.bits);
    u64_le_roundtrip(s, 40, m.alt_or_z.bits);
}

/// The bits of a byte made of a four-bit field, a three-bit field and a flag.
proof fn nibble_field_and_flag(x: int, y: u8, a: bool, byte: u8)
    requires
        0 <= x <= 15,
        y <= 7,
        byte == x + y * 16 + flag(a, 128),
    ensures
        byte % 16 == x,
        byte / 16 % 8 == y,
        has_flag(byte, 128) == a,
        byte % 8 == x % 8,
        byte % 4 == x % 4,
        has_flag(byte, 4) == (x / 4 % 2 == 1),
        has_flag(byte, 8) == (x / 8 % 2 == 1),
{
}

/// Decoding gives back an encoded Sensor Control that its bits can tell: the
/// state is geopoint, without polarity and line of sight, or fits its two bits;
/// an inactive sensor has no polarity, for that would read as geopoint; the
/// track mode fits its three bits.
#[verifier::rlimit(40)]
pub proof fn sensor_control_roundtrip(m: SensorControl)
    requires
        m.sensor_state <= 4,
        m.sensor_state == 4 ==> !m.polarity && !m.line_of_sight_enable,
        m.sensor_state == 0 ==> !m.polarity,
        m.track_mode <= 7,
    ensures
        m.spec_encode().len() == 24,
        m.spec_encode()[0] == SensorControl::TYPE_ID,
        m.spec_encode()[1] == 24,
        SensorControl::spec_decode(m.spec_encode()) == Some(m),
{
    reveal(SensorControl::spec_encode);
    let s = m.spec_encode();
    assert(s.len() == 24);
    nibble_field_and_flag(m.state_bits(), m.track_mode, m.response_type, s[4]);
    assert(s.subrange(6, 10) =~= u32_le(m.gain.bits));
    assert(s.subrange(10, 14) =~= u32_le(m.level.bits));
    assert(s.subrange(14, 18) =~= u32_le(m.ac_coupling.bits));
    assert(s.subrange(18, 22) =~= u32_le(m.noise.bits));
    u32_le_roundtrip(s, 6, m.gain.bits);
    u32_le_roundtrip(s, 10, m.level.bits);
    u32_le_roundtrip(s, 14, m.ac_coupling.bits);
    u32_le_roundtrip(s, 18, m.noise.bits);
}

/// Decoding gives back an encoded Start Of Frame whose fields fit their bits.
pub proof fn start_of_frame_roundtrip(m: StartOfFrame)
    requires
        m.ig_mode <= 3,
        m.minor_version <= 15,
        -128 <= m.db_number <= 127,
        m.timestamp_10us <= u32::MAX,
    ensures
        m.spec_encode().len() == 24,
        m.spec_encode()[0] == StartOfFrame::TYPE_ID,
        m.spec_encode()[1] == 24,
        StartOfFrame::spec_decode(m.spec_encode()) == Some(m),
{
    reveal(StartOfFrame::spec_encode);
    let s = m.spec_encode();
    assert(s.subrange(8, 12) =~= u32_le(m.ig_frame_ctr));
    assert(s.subrange(12, 16) =~= u32_le(m.timestamp_10us as u32));
    assert(s.subrange(16, 20) =~= u32_le(m.last_host_frame_number));
    u32_le_roundtrip(s, 8, m.ig_frame_ctr);
    u32_le_roundtrip(s, 12, m.timestamp_10us as u32);
    u32_le_roundtrip(s, 16, m.last_host_frame_number);
}

/// Where the fields of an IG Control stand, and with which weights its flags.
pub proof fn ig_control_layout(m: IgControl)
    ensures
        ({
            let s = m.spec_encode();
            &&& s.len() == 24
            &&& s[0] == 1 && s[1] == 24
            &&& s[2] / 64 == m.ig_mode % 4
            &&& s[2] / 2 % 2 == 1 <==> m.extrapolation_enable
            &&& s[2] % 2 == 1 <==> m.timestamp_valid
            &&& s[2] / 4 % 16 == 0
            &&& s[3] == m.minor_version
            &&& s.subrange(4, 6) == u16_le(unsigned16(m.db_number))
            &&& s.subrange(6, 8) == u16_le(m.last_rcvd_ig_frame_ctr)
            &&& s.subrange(8, 12) == u32_le(m.frame_ctr)
            &&& s.subrange(12, 20) == u64_le(m.timestamp.bits)
            &&& s.subrange(20, 24) == zeros(4)
        }),
{
    reveal(IgControl::spec_encode);
    let s = m.spec_encode();
    assert(s.subrange(4, 6) =~= u16_le(unsigned16(m.db_number)));
    assert(s.subrange(6, 8) =~= u16_le(m.last_rcvd_ig_frame_ctr));
    assert(s.subrange(8, 12) =~= u32_le(m.frame_ctr));
    assert(s.subrange(12, 20) =~= u64_le(m.timestamp.bits));
    assert(s.subrange(20, 24) =~= zeros(4));
}

/// Where the numbers of an Entity Control stand.
#[verifier::rlimit(40)]
pub proof fn entity_control_layout(m: EntityControl)
    ensures
        ({
            let s = m.spec_encode();
            &&& s.len() == 48
            &&& s[0] == 2 && s[1] == 48
            &&& s.subrange(2, 4) == u16_le(m.entity_id)
            &&& s[6] == m.alpha
            &&& s.subrange(8, 10) == u16_le(m.entity_type)
            &&& s.subrange(10, 12) == u16_le(m.parent_id)
            &&& s.subrange(12, 16) == u32_le(m.roll.bits)
            &&& s.subrange(16, 20) == u32_le(m.pitch.bits)
            &&& s.subrange(20, 24) == u32_le(m.yaw.bits)
            &&& s.subrange(24, 32) == u64_le(m.lat_or_x.bits)
            &&& s.subrange(32, 40) == u64_le(m.lon_or_y.bits)
            &&& s.subrange(40, 48) == u64_le(m.alt_or_z.bits)
        }),
{
    reveal(EntityControl::spec_encode);
    let s = m.spec_encode();
    assert(s.subrange(2, 4) =~= u16_le(m.entity_id));
    assert(s.subrange(8, 10) =~= u16_le(m.entity_type));
    assert(s.subrange(10, 12) =~= u16_le(m.parent_id));
    assert(s.subrange(12, 16) =~= u32_le(m.roll.bits));
    assert(s.subrange(16, 20) =~= u32_le(m.pitch.bits));
    assert(s.subrange(20, 24) =~= u32_le(m.yaw.bits));
    assert(s.subrange(24, 32) =~= u64_le(m.lat_or_x.bits));
    assert(s.subrange(32, 40) =~= u64_le(m.lon_or_y.bits));
    assert(s.subrange(40, 48) =~= u64_le(m.alt_or_z.bits));
}

/// The weights of the flags of an Entity Control.
#[verifier::rlimit(40)]
pub proof fn entity_control_flags(m: EntityControl)
    ensures
        ({
            let s = m.spec_encode();
            &&& s[4] % 4 == m.entity_state % 4
            &&& s[4] / 4 % 2 == 1 <==> m.attach_state
            &&& s[4] / 8 % 2 == 1 <==> m.collision_detect
            &&& s[4] / 16 % 2 == 1 <==> m.inherit_alpha
            &&& s[4] / 32 % 2 == 1 <==> m.ground_occlude_clamped
            &&& s[4] / 64 % 2 == 1 <==> m.animation_dir
            &&& s[5] % 4 == m.animation_mode % 4
            &&& s[5] / 4 == m.animation_state % 4
        }),
{
    reveal(EntityControl::spec_encode);
    let s = m.spec_encode();
    two_bits_and_flags(
        m.entity_state % 4,
        m.attach_state,
        m.collision_detect,
        m.inherit_alpha,
        m.ground_occlude_clamped,
        m.animation_dir,
        s[4],
    );
}

/// Where the fields of a Sensor Control stand, and with which weights its flags.
#[verifier::rlimit(40)]
pub proof fn sensor_control_layout(m: SensorControl)
    ensures
        ({
            let s = m.spec_encode();
            &&& s.len() == 24
            &&& s[0] == 17 && s[1] == 24
            &&& s[2] == m.view_id
            &&& s[3] == m.sensor_id
            &&& m.sensor_state == 4 ==> s[4] % 16 == 4
            &&& m.sensor_state != 4 ==> {
                &&& s[4] % 4 == m.sensor_state % 4
                &&& s[4] / 4 % 2 == 1 <==> m.polarity
                &&& s[4] / 8 % 2 == 1 <==> m.line_of_sight_enable
            }
            &&& s[4] / 16 % 8 == m.track_mode % 8
            &&& s[4] / 128 == 1 <==> m.response_type
            &&& s[5] % 2 == 1 <==> m.auto_gain
            &&& s[5] / 2 == 1 <==> m.track_polarity
            &&& s.subrange(6, 10) == u32_le(m.gain.bits)
            &&& s.subrange(10, 14) == u32_le(m.level.bits)
            &&& s.subrange(14, 18) == u32_le(m.ac_coupling.bits)
            &&& s.subrange(18, 22) == u32_le(m.noise.bits)
        }),
{
    reveal(SensorControl::spec_encode);
    let s = m.spec_encode();
    nibble_field_and_flag(m.state_bits(), m.track_mode % 8, m.response_type, s[4]);
    assert(s.subrange(6, 10) =~= u32_le(m.gain.bits));
    assert(s.subrange(10, 14) =~= u32_le(m.level.bits));
    assert(s.subrange(14, 18) =~= u32_le(m.ac_coupling.bits));
    assert(s.subrange(18, 22) =~= u32_le(m.noise.bits));
}

/// Where the fields of a Start Of Frame stand, and with which weights its flags. The
/// major version is 3, and the byte swap magic number tells little-endian.
pub proof fn start_of_frame_layout(m: StartOfFrame)
    ensures
        ({
            let s = m.spec_encode();
            &&& s.len() == 24
            &&& s[0] == 101 && s[1] == 24
            &&& s[2] == 3
            &&& (s[3] - m.db_number) % 0x100 == 0
            &&& s[4] == m.ig_status
            &&& s[5] / 16 == m.minor_version % 16
            &&& s[5] / 8 % 2 == 1 <==> m.earth_ref_model
            &&& s[5] / 4 % 2 == 1 <==> m.timestamp_valid
            &&& s[5] % 4 == m.ig_mode % 4
            &&& s[6] == 0 && s[7] == 0x80
            &&& s.subrange(8, 12) == u32_le(m.ig_frame_ctr)
            &&& s.subrange(12, 16) == u32_le((m.timestamp_10us % 0x1_0000_0000) as u32)
            &&& s.subrange(16, 20) == u32_le(m.last_host_frame_number)
        }),
{
    reveal(StartOfFrame::spec_encode);
    let s = m.spec_encode();
    assert(s.subrange(8, 12) =~= u32_le(m.ig_frame_ctr));
    assert(s.subrange(12, 16) =~= u32_le((m.timestamp_10us % 0x1_0000_0000) as u32));
    assert(s.subrange(16, 20) =~= u32_le(m.last_host_frame_number));
}

/// A Sensor Extended Response is read from where its fields stand in the packet.
#[verifier::rlimit(40)]
pub proof fn sensor_extended_response_read_back(s: Seq<u8>, m: SensorExtendedResponse)
    requires
        s.len() >= 48,
        s.subrange(2, 4) == u16_le(m.view_id),
        s[4] == m.sensor_id,
        s[5] % 4 == m.sensor_status,
        s[5] / 4 % 2 == 1 <==> m.entity_id_valid,
        s.subrange(6, 8) == u16_le(m.entity_id),
        s.subrange(8, 10) == u16_le(m.gate_x_size),
        s.subrange(10, 12) == u16_le(m.gate_y_size),
        s.subrange(12, 16) == u32_le(m.gate_x_pos.bits),
        s.subrange(16, 20) == u32_le(m.gate_y_pos.bits),
        s.subrange(20, 24) == u32_le(m.frame_ctr),
        s.subrange(24, 32) == u64_le(m.entity_lat.bits),
        s.subrange(32, 40) == u64_le(m.entity_lon.bits),
        s.subrange(40, 48) == u64_le(m.entity_alt.bits),
    ensures
        SensorExtendedResponse::spec_decode(s) == Some(m),
{
    u16_le_roundtrip(s, 2, m.view_id);
    u16_le_roundtrip(s, 6, m.entity_id);
    u16_le_roundtrip(s, 8, m.gate_x_size);
    u16_le_roundtrip(s, 10, m.gate_y_size);
    u32_le_roundtrip(s, 12, m.gate_x_pos.bits);
    u32_le_roundtrip(s, 16, m.gate_y_pos.bits);
    u32_le_roundtrip(s, 20, m.frame_ctr);
    u64_le_roundtrip(s, 24, m.entity_lat.bits);
    u64_le_roundtrip(s, 32, m.entity_lon.bits);
    u64_le_roundtrip(s, 40, m.entity_alt.bits);
}

/// A packet that is too short for its message is not read, and one that is long enough
/// always is.
pub proof fn short_packets_not_read(s: Seq<u8>)
    ensures
        IgControl::spec_decode(s) is Some <==> s.len() >= 24,
        EntityControl::spec_decode(s) is Some <==> s.len() >= 48,
        SensorControl::spec_decode(s) is Some <==> s.len() >= 24,
        StartOfFrame::spec_decode(s) is Some <==> s.len() >= 24,
        SensorExtendedResponse::spec_decode(s) is Some <==> s.len() >= 48,
{
}

/// What stands behind a message in its packet makes no difference.
#[verifier::rlimit(40)]
pub proof fn longer_packets_read_alike(s: Seq<u8>, more: Seq<u8>)
    ensures
        s.len() == 24 ==> IgControl::spec_decode(s + more) == IgControl::spec_decode(s),
        s.len() == 48 ==> EntityControl::spec_decode(s + more) == EntityControl::spec_decode(s),
        s.len() == 24 ==> SensorControl::spec_decode(s + more) == SensorControl::spec_decode(s),
        s.len() == 24 ==> StartOfFrame::spec_decode(s + more) == StartOfFrame::spec_decode(s),
        s.len() == 48 ==> SensorExtendedResponse::spec_decode(s + more)
            == SensorExtendedResponse::spec_decode(s),
{
}

/// A message that is not filled in is zero throughout.
pub proof fn empty_messages_are_zero()
    ensures
        ({
            let m = IgControl::spec_default();
            &&& m.ig_mode == 0 && m.minor_version == 0 && m.db_number == 0
            &&& m.last_rcvd_ig_frame_ctr == 0 && m.frame_ctr == 0 && m.timestamp.bits == 0
            &&& !m.timestamp_valid && !m.extrapolation_enable
        }),
        ({
            let m = EntityControl::spec_default();
            &&& m.entity_id == 0 && m.entity_state == 0 && m.alpha == 0
            &&& m.animation_mode == 0 && m.animation_state == 0
            &&& m.entity_type == 0 && m.parent_id == 0
            &&& !m.attach_state && !m.collision_detect && !m.inherit_alpha
            &&& !m.ground_occlude_clamped && !m.animation_dir
            &&& m.roll.bits == 0 && m.pitch.bits == 0 && m.yaw.bits == 0
            &&& m.lat_or_x.bits == 0 && m.lon_or_y.bits == 0 && m.alt_or_z.bits == 0
        }),
        ({
            let m = SensorControl::spec_default();
            &&& m.view_id == 0 && m.sensor_id == 0 && m.sensor_state == 0 && m.track_mode == 0
            &&& !m.polarity && !m.line_of_sight_enable && !m.response_type
            &&& !m.auto_gain && !m.track_polarity
            &&& m.gain.bits == 0 && m.level.bits == 0
            &&& m.ac_coupling.bits == 0 && m.noise.bits == 0
        }),
        ({
            let m = StartOfFrame::spec_default();
            &&& m.ig_status == 0 && m.ig_mode == 0 && m.minor_version == 0 && m.db_number == 0
            &&& m.ig_frame_ctr == 0 && m.timestamp_10us == 0 && m.last_host_frame_number == 0
            &&& !m.timestamp_valid && !m.earth_ref_model
        }),
        ({
            let m = SensorExtendedResponse::spec_default();
            &&& m.view_id == 0 && m.sensor_id == 0 && m.sensor_status == 0 && m.frame_ctr == 0
            &&& m.gate_x_size == 0 && m.gate_y_size == 0
            &&& m.gate_x_pos.bits == 0 && m.gate_y_pos.bits == 0
            &&& !m.entity_id_valid && m.entity_id == 0
            &&& m.entity_lat.bits == 0 && m.entity_lon.bits == 0 && m.entity_alt.bits == 0
        }),
{
}

} // verus!
