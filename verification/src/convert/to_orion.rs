//! From CIGI to Orion.

use vstd::prelude::*;

use crate::bits::F64Bits;
use crate::cigi::messages::SensorExtendedResponse;
use crate::orion::{empty_telemetry, GeolocateTelemetryCorePacket, OrionMode};

verus! {

/// The mode that a sensor status stands for: tracking is track mode, breaklock is
/// disabled, and locked and slewing are position mode.
pub open spec fn mode_of(sensor_status: u8) -> OrionMode {
    if sensor_status % 4 == 1 {
        OrionMode::OrionModeTrack
    } else if sensor_status % 4 == 3 {
        OrionMode::OrionModeDisabled
    } else {
        OrionMode::OrionModePosition
    }
}

/// The telemetry for a response whose position in radians is given.
pub open spec fn telemetry_for(
    resp: SensorExtendedResponse,
    lat_rad: F64Bits,
    lon_rad: F64Bits,
) -> GeolocateTelemetryCorePacket {
    GeolocateTelemetryCorePacket {
        pos_lat: lat_rad,
        pos_lon: lon_rad,
        pos_alt: resp.entity_alt,
        mode: mode_of(resp.sensor_status),
        ..empty_telemetry()
    }
}

/// The telemetry for a response. `lat_rad` and `lon_rad` are its position in
/// radians.
pub fn sensor_response_to_telemetry(
    resp: &SensorExtendedResponse,
    lat_rad: F64Bits,
    lon_rad: F64Bits,
) -> (r: GeolocateTelemetryCorePacket)
    ensures
        r == telemetry_for(*resp, lat_rad, lon_rad),
        r == (GeolocateTelemetryCorePacket {
            pos_lat: lat_rad,
            pos_lon: lon_rad,
            pos_alt: resp.entity_alt,
            mode: mode_of(resp.sensor_status),
            ..empty_telemetry()
        }),
{
    let status: u8 = resp.sensor_status % 4;
    let mut pkt = GeolocateTelemetryCorePacket::default();
    pkt.pos_lat = lat_rad;
    pkt.pos_lon = lon_rad;
    pkt.pos_alt = resp.entity_alt;
    pkt.mode = if status == 1 {
        OrionMode::OrionModeTrack
    } else if status == 3 {
        OrionMode::OrionModeDisabled
    } else {
        OrionMode::OrionModePosition
    };
    pkt
}

// ── Laws ───────────────────────────────────────────────────────────────

/// A status that comes from a mode is read as that mode, for the modes that the
/// status can tell: position, an active track and disabled.
pub proof fn status_read_back(settled: bool)
    ensures
        mode_of(
            crate::convert::to_cigi::status_of(OrionMode::OrionModePosition, settled, false),
        ) == OrionMode::OrionModePosition,
        mode_of(
            crate::convert::to_cigi::status_of(OrionMode::OrionModeTrack, settled, true),
        ) == OrionMode::OrionModeTrack,
        mode_of(
            crate::convert::to_cigi::status_of(OrionMode::OrionModeDisabled, settled, false),
        ) == OrionMode::OrionModeDisabled,
{
}

/// The telemetry of a response stands where the response does: latitude, longitude and
/// altitude each in its own field. Its mode is that of the status: 1 tracks, 3 is
/// disabled, 0 and 2 are position.
pub proof fn telemetry_is_the_response(
    resp: SensorExtendedResponse,
    lat_rad: F64Bits,
    lon_rad: F64Bits,
)
    ensures
        ({
            let t = telemetry_for(resp, lat_rad, lon_rad);
            &&& t.pos_lat == lat_rad
            &&& t.pos_lon == lon_rad
            &&& t.pos_alt == resp.entity_alt
            &&& resp.sensor_status == 0 || resp.sensor_status == 2 ==> t.mode
                is OrionModePosition
            &&& resp.sensor_status == 1 ==> t.mode is OrionModeTrack
            &&& resp.sensor_status == 3 ==> t.mode is OrionModeDisabled
            &&& t.pan.rank() == 0 && t.tilt.rank() == 0
            &&& t.hfov.rank() == 0 && t.vfov.rank() == 0
            &&& t.primary_track_data is None && t.has_track_data == 0
            &&& t.system_time == 0 && t.camera_index == 0
            &&& t.ins_quat is None && t.range_source is RangeSrcNone
        }),
{
}

} // verus!
