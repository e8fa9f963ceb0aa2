//! The Trillium Orion protocol.

use vstd::prelude::*;

use crate::bits::{F32Bits, F64Bits};

pub mod stream;
pub mod wire;

verus! {

/// What the gimbal does.
#[derive(Debug, Clone, Copy, PartialEq, Eq, Structural)]
pub enum OrionMode {
    OrionModeDisabled,
    OrionModePosition,
    OrionModePositionNoLimits,
    OrionModeRate,
    OrionModeTrack,
    OrionModeGeopoint,
    OrionModeFault,
    /// Any other mode, by its number.
    OrionModeOther(u8),
}

impl Default for OrionMode {
    fn default() -> (r: Self)
        ensures
            r == OrionMode::OrionModeDisabled,
    {
        OrionMode::OrionModeDisabled
    }
}

/// A command: a mode and its target, in pan and in tilt.
#[derive(Debug, Clone, Copy, PartialEq, Eq)]
pub struct OrionCmd {
    pub mode: OrionMode,
    /// Angles (rad) or rates (rad/s).
    pub target: [F32Bits; 2],
    /// 1 when the target is held against the motion of the platform.
    pub stabilized: u32,
    /// How long an impulse lasts (s).
    pub impulse_time: F32Bits,
}

/// A command packet.
#[derive(Debug, Clone, Copy, PartialEq, Eq)]
pub struct OrionCmdPacket {
    pub cmd: OrionCmd,
}

/// Where a range comes from.
#[derive(Debug, Clone, Copy, PartialEq, Eq, Structural)]
pub enum RangeDataSrc {
    RangeSrcNone,
    RangeSrcLaser,
}

/// The tracked target.
#[derive(Debug, Clone, Copy, PartialEq, Eq)]
pub struct PrimaryTrackData {
    /// Offset from the image centre, as fractions of the field of view.
    pub pos: [F32Bits; 2],
    /// Size, as a fraction of the field of view.
    pub size: F32Bits,
    /// Confidence, from 0 to 1.
    pub confidence: F32Bits,
    /// 1 when the target is not seen any more.
    pub coasting: u32,
    /// 1 when the target is tracked.
    pub active: u32,
}

/// The telemetry of the gimbal.
#[derive(Debug, Clone, Copy, PartialEq, Eq)]
pub struct GeolocateTelemetryCorePacket {
    /// Milliseconds since the start.
    pub system_time: u32,
    /// Platform latitude (rad).
    pub pos_lat: F64Bits,
    /// Platform longitude (rad).
    pub pos_lon: F64Bits,
    /// Platform altitude (m).
    pub pos_alt: F64Bits,
    /// Velocity north, east and down (m/s).
    pub vel_ned: [F32Bits; 3],
    /// Pan (rad).
    pub pan: F32Bits,
    /// Tilt (rad).
    pub tilt: F32Bits,
    /// Horizontal field of view (rad).
    pub hfov: F32Bits,
    /// Vertical field of view (rad).
    pub vfov: F32Bits,
    pub mode: OrionMode,
    pub camera_index: i8,
    /// Orientation of the gimbal (w, x, y, z).
    pub gimbal_quat: [F32Bits; 4],
    /// Orientation of the platform (w, x, y, z), if it is known.
    pub ins_quat: Option<[F32Bits; 4]>,
    /// Line of sight, earth-centred and earth-fixed.
    pub los_ecef: [F32Bits; 3],
    pub range_source: RangeDataSrc,
    /// 1 when there is track data.
    pub has_track_data: u32,
    pub primary_track_data: Option<PrimaryTrackData>,
}

/// A packet with all fields zero.
pub open spec fn empty_telemetry() -> GeolocateTelemetryCorePacket {
    let zero = F32Bits { bits: 0 };
    GeolocateTelemetryCorePacket {
        system_time: 0,
        pos_lat: F64Bits { bits: 0 },
        pos_lon: F64Bits { bits: 0 },
        pos_alt: F64Bits { bits: 0 },
        vel_ned: [zero, zero, zero],
        pan: zero,
        tilt: zero,
        hfov: zero,
        vfov: zero,
        mode: OrionMode::OrionModeDisabled,
        camera_index: 0,
        gimbal_quat: [zero, zero, zero, zero],
        ins_quat: None,
        los_ecef: [zero, zero, zero],
        range_source: RangeDataSrc::RangeSrcNone,
        has_track_data: 0,
        primary_track_data: None,
    }
}

impl Default for GeolocateTelemetryCorePacket {
    fn default() -> (r: Self)
        ensures
            r == empty_telemetry(),
    {
        let zero = F32Bits::from_bits(0);
        GeolocateTelemetryCorePacket {
            system_time: 0,
            pos_lat: F64Bits::from_bits(0),
            pos_lon: F64Bits::from_bits(0),
            pos_alt: F64Bits::from_bits(0),
            vel_ned: [zero, zero, zero],
            pan: zero,
            tilt: zero,
            hfov: zero,
            vfov: zero,
            mode: OrionMode::OrionModeDisabled,
            camera_index: 0,
            gimbal_quat: [zero, zero, zero, zero],
            ins_quat: None,
            los_ecef: [zero, zero, zero],
            range_source: RangeDataSrc::RangeSrcNone,
            has_track_data: 0,
            primary_track_data: None,
        }
    }
}

/// What a fault is about.
#[derive(Debug, Clone, Copy, PartialEq, Eq, Structural)]
pub enum OrionFaultType {
    FaultTypeVelocityLimitExceeded,
}

/// How bad a fault is.
#[derive(Debug, Clone, Copy, PartialEq, Eq, Structural)]
pub enum OrionFaultLevel {
    FaultLevelError,
}

/// A fault report.
#[derive(Debug, Clone, Copy, PartialEq, Eq, Structural)]
pub struct OrionFaultPacket {
    pub type_: OrionFaultType,
    pub level: OrionFaultLevel,
}

/// An empty packet is zero throughout, and disabled.
pub proof fn empty_telemetry_is_zero()
    ensures
        ({
            let t = empty_telemetry();
            &&& t.system_time == 0 && t.camera_index == 0 && t.has_track_data == 0
            &&& t.pos_lat.bits == 0 && t.pos_lon.bits == 0 && t.pos_alt.bits == 0
            &&& t.vel_ned[0].bits == 0 && t.vel_ned[1].bits == 0 && t.vel_ned[2].bits == 0
            &&& t.pan.bits == 0 && t.tilt.bits == 0 && t.hfov.bits == 0 && t.vfov.bits == 0
            &&& t.mode is OrionModeDisabled
            &&& t.ins_quat is None && t.primary_track_data is None
            &&& t.range_source is RangeSrcNone
        }),
{
}

} // verus!
