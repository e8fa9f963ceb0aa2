//! What the simulated gimbal reports.

use vstd::prelude::*;

use crate::bits::{F32Bits, F64Bits, F32_ONE};
use crate::cigi::messages::{SensorExtendedResponse, StartOfFrame};
use crate::config::unit_clamped;
use crate::convert::to_cigi::{status_of, telemetry_to_sensor_extended_response};
use crate::convert::MAX_ANGLE;
use crate::faults::{is_draw, lcg_after, lcg_noise_f32};
use crate::orion::{
    empty_telemetry, GeolocateTelemetryCorePacket, OrionMode, PrimaryTrackData, RangeDataSrc,
};
use crate::simulator::{half_turn, into_half_turn, GimbalSimulator};

verus! {

/// Resolution of the sensor (pixels).
pub const SENSOR_RESOLUTION: u16 = 640;

/// A point looked at from this altitude on (m, binary64) is none: 1e6.
pub const NO_GROUND: u64 = 0x412E_8480_0000_0000;

/// The smallest angle and threshold that others are divided by (binary32): 1e-6.
pub const SMALLEST: u32 = 0x3586_37BD;

/// Bounds of the track size: 0.01 and 0.5.
pub const TRACK_SIZE_MIN: u32 = 0x3C23_D70A;

pub const TRACK_SIZE_MAX: u32 = 0x3F00_0000;

/// Numbers in the telemetry that take arithmetic to find.
#[derive(Debug, Clone, Copy, PartialEq, Eq)]
pub struct TelemetryParts {
    /// Latitude (rad), longitude (rad) and altitude (m) of the platform, with the
    /// noise of [`GimbalSimulator::position_noise`].
    pub noisy_pos: [F64Bits; 3],
    /// Pan with jitter, less whole turns (rad).
    pub wrapped_pan: F32Bits,
    /// The pan that a frozen encoder reports, less whole turns (rad).
    pub wrapped_frozen_pan: F32Bits,
    /// Orientation of the gimbal (w, x, y, z).
    pub gimbal_quat: [F32Bits; 4],
    /// Orientation of the platform (w, x, y, z).
    pub platform_quat: [F32Bits; 4],
    /// Line of sight, earth-centred and earth-fixed.
    pub los_ecef: [F32Bits; 3],
    /// Size of the tracked target, as a fraction of the field of view.
    pub track_size: F32Bits,
    /// Confidence of the track.
    pub track_confidence: F32Bits,
}

/// What the size and confidence of a track are computed from.
#[derive(Debug, Clone, Copy, PartialEq, Eq, Structural)]
pub struct TrackGeometry {
    /// Horizontal field of view (rad), never zero.
    pub hfov: F32Bits,
    /// Offset at which the track is lost, never zero.
    pub threshold: F32Bits,
    /// Distance to the target (m), where it is known.
    pub range_m: Option<F64Bits>,
}

impl GimbalSimulator {
    /// The noise on latitude, longitude and altitude.
    pub open spec fn is_position_noise(self, r: [F32Bits; 3]) -> bool {
        &&& is_draw(r[0], self.noise_seed, 1)
        &&& is_draw(r[1], self.noise_seed, 2)
        &&& is_draw(r[2], self.noise_seed, 3)
    }

    /// The noise on a degraded position: latitude, longitude, altitude. The noise
    /// generator stays where it is, so one tick always reports the same.
    pub fn position_noise(&self) -> (r: [F32Bits; 3])
        ensures
            self.is_position_noise(r),
            is_draw(r[0], self.noise_seed, 1),
            is_draw(r[1], self.noise_seed, 2),
            is_draw(r[2], self.noise_seed, 3),
    {
        proof {
            reveal_with_fuel(lcg_after, 4);
        }
        let mut seed: u32 = self.noise_seed;
        let lat = lcg_noise_f32(&mut seed);
        let lon = lcg_noise_f32(&mut seed);
        let alt = lcg_noise_f32(&mut seed);
        [lat, lon, alt]
    }

    /// The laser gives a range: it is on and healthy, and the distance is known
    /// and not too far.
    pub open spec fn laser_ranges(self) -> bool {
        &&& self.laser_enabled
        &&& !self.faults.laser_fault
        &&& (F64Bits { bits: 0 }).below(self.slant_range_m)
        &&& self.slant_range_m.at_most(self.config.laser_max_range_m)
    }

    /// The position that is reported: none without GPS, a noisy one when GPS is
    /// degraded.
    pub open spec fn reported_pos(self, noisy: [F64Bits; 3]) -> (F64Bits, F64Bits, F64Bits) {
        let zero = F64Bits { bits: 0 };
        if self.faults.gps_loss {
            (zero, zero, zero)
        } else if self.faults.degraded_gps {
            (noisy[0], noisy[1], noisy[2])
        } else {
            (self.pos_lat, self.pos_lon, self.pos_alt)
        }
    }

    /// The angle whose wrapped value is reported as pan: frozen under an encoder
    /// fault.
    pub open spec fn pan_to_report(self) -> F32Bits {
        if self.faults.encoder_fault {
            self.faults.frozen_pan
        } else {
            self.pan_jittered
        }
    }

    /// The pan that is reported: frozen under an encoder fault.
    pub open spec fn reported_pan(self, parts: TelemetryParts) -> F32Bits {
        if self.faults.encoder_fault {
            half_turn(parts.wrapped_frozen_pan)
        } else {
            half_turn(parts.wrapped_pan)
        }
    }

    /// The track data that is reported in track mode: the size between 0.01 and 0.5,
    /// the confidence between 0 and 1.
    pub open spec fn reported_track(self, size: F32Bits, confidence: F32Bits) -> PrimaryTrackData {
        PrimaryTrackData {
            pos: self.track_target,
            size: size.spec_clamp(
                F32Bits { bits: TRACK_SIZE_MIN },
                F32Bits { bits: TRACK_SIZE_MAX },
            ),
            confidence: if self.track_active {
                unit_clamped(confidence)
            } else {
                F32Bits { bits: 0 }
            },
            coasting: if self.track_active {
                0
            } else {
                1
            },
            active: if self.track_active {
                1
            } else {
                0
            },
        }
    }

    /// The telemetry of the gimbal.
    pub open spec fn telemetry(self, parts: TelemetryParts) -> GeolocateTelemetryCorePacket {
        let z = F32Bits { bits: 0 };
        let pos = self.reported_pos(parts.noisy_pos);
        let tracks = self.mode is OrionModeTrack;
        GeolocateTelemetryCorePacket {
            system_time: self.system_time_ms,
            pos_lat: pos.0,
            pos_lon: pos.1,
            pos_alt: pos.2,
            vel_ned: if self.faults.gps_loss || self.faults.imu_dropout {
                [z, z, z]
            } else {
                self.vel_ned
            },
            pan: self.reported_pan(parts),
            tilt: if self.faults.encoder_fault {
                self.faults.frozen_tilt
            } else {
                self.tilt_jittered
            },
            hfov: self.hfov,
            vfov: self.vfov,
            mode: self.mode,
            camera_index: self.camera_index,
            gimbal_quat: parts.gimbal_quat,
            ins_quat: if self.faults.imu_dropout {
                None
            } else {
                Some(parts.platform_quat)
            },
            los_ecef: parts.los_ecef,
            range_source: if self.laser_ranges() {
                RangeDataSrc::RangeSrcLaser
            } else {
                RangeDataSrc::RangeSrcNone
            },
            has_track_data: if tracks {
                1
            } else {
                0
            },
            primary_track_data: if tracks {
                Some(self.reported_track(parts.track_size, parts.track_confidence))
            } else {
                None
            },
        }
    }

    /// Builds the telemetry of the gimbal.
    pub fn to_telemetry(&self, parts: &TelemetryParts) -> (r: GeolocateTelemetryCorePacket)
        ensures
            r == self.telemetry(*parts),
    {
        let z = F32Bits::from_bits(0);
        let mut pkt = GeolocateTelemetryCorePacket::default();
        pkt.system_time = self.system_time_ms;
        if self.faults.gps_loss {
            pkt.pos_lat = F64Bits::from_bits(0);
            pkt.pos_lon = F64Bits::from_bits(0);
            pkt.pos_alt = F64Bits::from_bits(0);
        } else if self.faults.degraded_gps {
            pkt.pos_lat = parts.noisy_pos[0];
            pkt.pos_lon = parts.noisy_pos[1];
            pkt.pos_alt = parts.noisy_pos[2];
        } else {
            pkt.pos_lat = self.pos_lat;
            pkt.pos_lon = self.pos_lon;
            pkt.pos_alt = self.pos_alt;
        }
        pkt.pan = if self.faults.encoder_fault {
            into_half_turn(parts.wrapped_frozen_pan)
        } else {
            into_half_turn(parts.wrapped_pan)
        };
        pkt.tilt = if self.faults.encoder_fault {
            self.faults.frozen_tilt
        } else {
            self.tilt_jittered
        };
        pkt.hfov = self.hfov;
        pkt.vfov = self.vfov;
        pkt.mode = self.mode;
        pkt.camera_index = self.camera_index;
        pkt.vel_ned = if self.faults.gps_loss || self.faults.imu_dropout {
            [z, z, z]
        } else {
            self.vel_ned
        };
        pkt.gimbal_quat = parts.gimbal_quat;
        pkt.ins_quat = if self.faults.imu_dropout {
            None
        } else {
            Some(parts.platform_quat)
        };
        pkt.los_ecef = parts.los_ecef;
        if self.laser_enabled && !self.faults.laser_fault && F64Bits::from_bits(0).lt(
            self.slant_range_m,
        ) && self.slant_range_m.le(self.config.laser_max_range_m) {
            pkt.range_source = RangeDataSrc::RangeSrcLaser;
        } else {
            pkt.range_source = RangeDataSrc::RangeSrcNone;
        }
        match self.mode {
            OrionMode::OrionModeTrack => {
                pkt.has_track_data = 1;
                pkt.primary_track_data = Some(
                    PrimaryTrackData {
                        pos: self.track_target,
                        size: parts.track_size.clamp(
                            F32Bits::from_bits(TRACK_SIZE_MIN),
                            F32Bits::from_bits(TRACK_SIZE_MAX),
                        ),
                        confidence: if self.track_active {
                            parts.track_confidence.clamp(z, F32Bits::from_bits(F32_ONE))
                        } else {
                            z
                        },
                        coasting: if self.track_active {
                            0
                        } else {
                            1
                        },
                        active: if self.track_active {
                            1
                        } else {
                            0
                        },
                    },
                );
            },
            _ => {},
        }
        pkt
    }

    /// What the size and confidence of the track are computed from.
    pub open spec fn geometry(self) -> TrackGeometry {
        TrackGeometry {
            hfov: self.hfov.spec_max(F32Bits { bits: SMALLEST }),
            threshold: self.config.track_loss_threshold.spec_max(F32Bits { bits: SMALLEST }),
            range_m: if !self.faults.laser_fault && (F64Bits { bits: 0 }).below(
                self.slant_range_m,
            ) {
                Some(self.slant_range_m)
            } else {
                None
            },
        }
    }

    /// What the size and confidence of the track are computed from.
    pub fn track_geometry(&self) -> (r: TrackGeometry)
        ensures
            r == self.geometry(),
            r == (TrackGeometry {
                hfov: self.hfov.spec_max(F32Bits { bits: SMALLEST }),
                threshold: self.config.track_loss_threshold.spec_max(F32Bits { bits: SMALLEST }),
                range_m: if !self.faults.laser_fault && (F64Bits { bits: 0 }).below(
                    self.slant_range_m,
                ) {
                    Some(self.slant_range_m)
                } else {
                    None
                },
            }),
    {
        TrackGeometry {
            hfov: self.hfov.max(F32Bits::from_bits(SMALLEST)),
            threshold: self.config.track_loss_threshold.max(F32Bits::from_bits(SMALLEST)),
            range_m: if !self.faults.laser_fault && F64Bits::from_bits(0).lt(self.slant_range_m) {
                Some(self.slant_range_m)
            } else {
                None
            },
        }
    }

    /// The point looked at is not reported: a camera switch is under way, the
    /// platform is not above the ellipsoid, the line of sight misses the earth or
    /// there is no GPS.
    pub open spec fn suppresses_look_point(self) -> bool {
        ||| self.camera_switch_remaining > 0
        ||| self.pos_alt.at_most(F64Bits { bits: 0 })
        ||| (F64Bits { bits: NO_GROUND }).at_most(self.look_alt)
        ||| self.faults.gps_loss
    }

    /// The response of the gimbal to a CIGI host.
    pub open spec fn response(
        self,
        look_lat_deg: F64Bits,
        look_lon_deg: F64Bits,
        gate_px: u16,
    ) -> SensorExtendedResponse {
        let zero = F64Bits { bits: 0 };
        let size: u16 = if gate_px < 1 {
            1
        } else if gate_px > SENSOR_RESOLUTION {
            SENSOR_RESOLUTION
        } else {
            gate_px
        };
        let tracks = self.mode is OrionModeTrack;
        SensorExtendedResponse {
            view_id: 0,
            sensor_id: 0,
            sensor_status: status_of(self.mode, self.settled, self.track_active),
            gate_x_size: size,
            gate_y_size: size,
            gate_x_pos: if tracks {
                self.track_target[0]
            } else {
                F32Bits { bits: 0 }
            },
            gate_y_pos: if tracks {
                self.track_target[1]
            } else {
                F32Bits { bits: 0 }
            },
            frame_ctr: self.system_time_ms,
            entity_id_valid: false,
            entity_id: 0,
            entity_lat: if self.suppresses_look_point() {
                zero
            } else {
                look_lat_deg
            },
            entity_lon: if self.suppresses_look_point() {
                zero
            } else {
                look_lon_deg
            },
            entity_alt: if self.suppresses_look_point() {
                zero
            } else {
                self.look_alt
            },
        }
    }

    /// Builds the response to a CIGI host from the telemetry. `look_lat_deg` and
    /// `look_lon_deg` are the point looked at in degrees, `gate_px` is the size of
    /// the tracking gate in pixels.
    pub fn to_sensor_extended_response(
        &self,
        parts: &TelemetryParts,
        look_lat_deg: F64Bits,
        look_lon_deg: F64Bits,
        gate_px: u16,
    ) -> (r: SensorExtendedResponse)
        ensures
            r == self.response(look_lat_deg, look_lon_deg, gate_px),
    {
        let zero = F64Bits::from_bits(0);
        let telem = self.to_telemetry(parts);
        let mut resp = telemetry_to_sensor_extended_response(
            &telem,
            zero,
            zero,
            0,
            0,
            self.settled,
            self.track_active,
        );
        let suppress: bool = self.camera_switch_remaining > 0 || self.pos_alt.le(zero)
            || F64Bits::from_bits(NO_GROUND).le(self.look_alt) || self.faults.gps_loss;
        if suppress {
            resp.entity_lat = zero;
            resp.entity_lon = zero;
            resp.entity_alt = zero;
        } else {
            resp.entity_lat = look_lat_deg;
            resp.entity_lon = look_lon_deg;
            resp.entity_alt = self.look_alt;
        }
        let size: u16 = if gate_px < 1 {
            1
        } else if gate_px > SENSOR_RESOLUTION {
            SENSOR_RESOLUTION
        } else {
            gate_px
        };
        resp.gate_x_size = size;
        resp.gate_y_size = size;
        match self.mode {
            OrionMode::OrionModeTrack => {
                resp.gate_x_pos = self.track_target[0];
                resp.gate_y_pos = self.track_target[1];
            },
            _ => {
                resp.gate_x_pos = F32Bits::from_bits(0);
                resp.gate_y_pos = F32Bits::from_bits(0);
            },
        }
        resp
    }

    /// The start of frame of the gimbal.
    pub open spec fn start_of_frame(self) -> StartOfFrame {
        StartOfFrame {
            ig_status: 0,
            ig_mode: self.ig_mode,
            timestamp_valid: false,
            earth_ref_model: false,
            minor_version: 3,
            db_number: 0,
            ig_frame_ctr: self.frame_ctr,
            timestamp_10us: (self.system_time_ms * 100) as u64,
            last_host_frame_number: self.host_frame_ctr,
        }
    }

    /// Builds a start of frame. Its time is that of the gimbal.
    pub fn to_start_of_frame(&self) -> (r: StartOfFrame)
        ensures
            r == self.start_of_frame(),
            r == (StartOfFrame {
                ig_status: 0,
                ig_mode: self.ig_mode,
                timestamp_valid: false,
                earth_ref_model: false,
                minor_version: 3,
                db_number: 0,
                ig_frame_ctr: self.frame_ctr,
                timestamp_10us: (self.system_time_ms * 100) as u64,
                last_host_frame_number: self.host_frame_ctr,
            }),
    {
        StartOfFrame {
            ig_status: 0,
            ig_mode: self.ig_mode,
            timestamp_valid: false,
            earth_ref_model: false,
            minor_version: 3,
            db_number: 0,
            ig_frame_ctr: self.frame_ctr,
            timestamp_10us: self.system_time_ms as u64 * 100,
            last_host_frame_number: self.host_frame_ctr,
        }
    }
}

// ── Laws ───────────────────────────────────────────────────────────────

/// Without GPS neither position nor velocity is reported, whatever the platform
/// does.
pub proof fn gps_loss_hides_position(s: GimbalSimulator, parts: TelemetryParts)
    requires
        s.faults.gps_loss,
    ensures
        s.telemetry(parts).pos_lat == (F64Bits { bits: 0 }),
        s.telemetry(parts).pos_lon == (F64Bits { bits: 0 }),
        s.telemetry(parts).pos_alt == (F64Bits { bits: 0 }),
        s.telemetry(parts).vel_ned == empty_telemetry().vel_ned,
{
}

/// Without GPS the point looked at, which would tell the position, is not reported
/// either.
pub proof fn gps_loss_hides_look_point(
    s: GimbalSimulator,
    look_lat_deg: F64Bits,
    look_lon_deg: F64Bits,
    gate_px: u16,
)
    requires
        s.faults.gps_loss,
    ensures
        s.response(look_lat_deg, look_lon_deg, gate_px).entity_lat == (F64Bits { bits: 0 }),
        s.response(look_lat_deg, look_lon_deg, gate_px).entity_lon == (F64Bits { bits: 0 }),
        s.response(look_lat_deg, look_lon_deg, gate_px).entity_alt == (F64Bits { bits: 0 }),
{
}

/// During a camera switch no point looked at is reported.
pub proof fn blackout_hides_look_point(
    s: GimbalSimulator,
    look_lat_deg: F64Bits,
    look_lon_deg: F64Bits,
    gate_px: u16,
)
    requires
        s.camera_switch_remaining > 0,
    ensures
        s.response(look_lat_deg, look_lon_deg, gate_px).entity_lat == (F64Bits { bits: 0 }),
        s.response(look_lat_deg, look_lon_deg, gate_px).entity_lon == (F64Bits { bits: 0 }),
        s.response(look_lat_deg, look_lon_deg, gate_px).entity_alt == (F64Bits { bits: 0 }),
{
}

/// A platform that is not above the ellipsoid reports no point looked at.
pub proof fn grounded_hides_look_point(
    s: GimbalSimulator,
    look_lat_deg: F64Bits,
    look_lon_deg: F64Bits,
    gate_px: u16,
)
    requires
        s.pos_alt.at_most(F64Bits { bits: 0 }),
    ensures
        s.response(look_lat_deg, look_lon_deg, gate_px).entity_lat == (F64Bits { bits: 0 }),
        s.response(look_lat_deg, look_lon_deg, gate_px).entity_lon == (F64Bits { bits: 0 }),
        s.response(look_lat_deg, look_lon_deg, gate_px).entity_alt == (F64Bits { bits: 0 }),
{
}

/// Without the IMU neither orientation nor velocity is reported.
pub proof fn imu_dropout_hides_attitude(s: GimbalSimulator, parts: TelemetryParts)
    requires
        s.faults.imu_dropout,
    ensures
        s.telemetry(parts).ins_quat is None,
        s.telemetry(parts).vel_ned == empty_telemetry().vel_ned,
{
}

/// The pans in `parts` are those of `s`, wrapped by `wrap`.
pub open spec fn wraps(
    s: GimbalSimulator,
    parts: TelemetryParts,
    wrap: spec_fn(F32Bits) -> F32Bits,
) -> bool {
    &&& parts.wrapped_pan == wrap(s.pan_jittered)
    &&& parts.wrapped_frozen_pan == wrap(s.faults.frozen_pan)
}

/// The reported pan is the wrapped angle of [`GimbalSimulator::pan_to_report`], and
/// lies above minus half a turn and up to half a turn.
pub proof fn reported_pan_is_wrapped(
    s: GimbalSimulator,
    parts: TelemetryParts,
    wrap: spec_fn(F32Bits) -> F32Bits,
)
    requires
        wraps(s, parts, wrap),
        (F32Bits { bits: MAX_ANGLE }).spec_neg().at_most(wrap(s.pan_to_report())),
        wrap(s.pan_to_report()).at_most(F32Bits { bits: MAX_ANGLE }),
    ensures
        s.telemetry(parts).pan == half_turn(wrap(s.pan_to_report())),
        (F32Bits { bits: MAX_ANGLE }).spec_neg().below(s.telemetry(parts).pan),
        s.telemetry(parts).pan.at_most(F32Bits { bits: MAX_ANGLE }),
{
}

/// Under an encoder fault the reported angles are the frozen ones, pan less whole
/// turns, wherever the gimbal is. A frozen pan that needs no wrapping is reported as
/// it is.
pub proof fn encoder_fault_freezes(
    a: GimbalSimulator,
    b: GimbalSimulator,
    a_parts: TelemetryParts,
    b_parts: TelemetryParts,
    wrap: spec_fn(F32Bits) -> F32Bits,
)
    requires
        a.faults.encoder_fault,
        a.faults == b.faults,
        wraps(a, a_parts, wrap),
        wraps(b, b_parts, wrap),
    ensures
        a.pan_to_report() == a.faults.frozen_pan,
        a.telemetry(a_parts).pan == half_turn(wrap(a.faults.frozen_pan)),
        a.telemetry(a_parts).pan == b.telemetry(b_parts).pan,
        a.telemetry(a_parts).tilt == a.faults.frozen_tilt,
        a.telemetry(a_parts).tilt == b.telemetry(b_parts).tilt,
        wrap(a.faults.frozen_pan) == a.faults.frozen_pan && (F32Bits {
            bits: MAX_ANGLE,
        }).spec_neg().below(a.faults.frozen_pan) ==> a.telemetry(a_parts).pan
            == a.faults.frozen_pan,
{
}

/// With a laser fault no range is reported.
pub proof fn laser_fault_hides_range(s: GimbalSimulator, parts: TelemetryParts)
    requires
        s.faults.laser_fault,
    ensures
        s.telemetry(parts).range_source == RangeDataSrc::RangeSrcNone,
{
}

/// The tracking gate is at least one pixel and at most the whole sensor.
pub proof fn gate_fits_sensor(
    s: GimbalSimulator,
    look_lat_deg: F64Bits,
    look_lon_deg: F64Bits,
    gate_px: u16,
)
    ensures
        1 <= s.response(look_lat_deg, look_lon_deg, gate_px).gate_x_size <= SENSOR_RESOLUTION,
        s.response(look_lat_deg, look_lon_deg, gate_px).gate_y_size == s.response(
            look_lat_deg,
            look_lon_deg,
            gate_px,
        ).gate_x_size,
{
}

/// Track data is reported in track mode alone. It gives the target and whether it is
/// tracked or coasting, and a lost track has no confidence.
pub proof fn track_data_follows_mode(s: GimbalSimulator, parts: TelemetryParts)
    ensures
        s.telemetry(parts).primary_track_data is Some <==> s.mode is OrionModeTrack,
        s.telemetry(parts).has_track_data == 1 <==> s.mode is OrionModeTrack,
        s.telemetry(parts).primary_track_data matches Some(track) ==> {
            &&& track.pos == s.track_target
            &&& track.active == 1 <==> s.track_active
            &&& track.coasting == 1 - track.active
            &&& !s.track_active ==> track.confidence == (F32Bits { bits: 0 })
        },
{
}

/// The reported size and confidence of a track lie within their bounds, whatever
/// numbers were computed.
pub proof fn track_data_bounded(s: GimbalSimulator, parts: TelemetryParts)
    requires
        !parts.track_size.nan(),
        !parts.track_confidence.nan(),
    ensures
        s.telemetry(parts).primary_track_data matches Some(track) ==> {
            &&& (F32Bits { bits: TRACK_SIZE_MIN }).at_most(track.size)
            &&& track.size.at_most(F32Bits { bits: TRACK_SIZE_MAX })
            &&& (F32Bits { bits: 0 }).at_most(track.confidence)
            &&& track.confidence.at_most(F32Bits { bits: F32_ONE })
        },
{
}

/// With GPS that is neither lost nor degraded, the position that is reported is the
/// platform's own: latitude as latitude, longitude as longitude, altitude as
/// altitude.
pub proof fn healthy_position_is_reported(s: GimbalSimulator, parts: TelemetryParts)
    requires
        !s.faults.gps_loss,
        !s.faults.degraded_gps,
    ensures
        s.telemetry(parts).pos_lat == s.pos_lat,
        s.telemetry(parts).pos_lon == s.pos_lon,
        s.telemetry(parts).pos_alt == s.pos_alt,
{
}

/// With GPS that is degraded but not lost, the noisy position is reported, each
/// coordinate as itself.
pub proof fn degraded_position_is_noisy(s: GimbalSimulator, parts: TelemetryParts)
    requires
        !s.faults.gps_loss,
        s.faults.degraded_gps,
    ensures
        s.telemetry(parts).pos_lat == parts.noisy_pos[0],
        s.telemetry(parts).pos_lon == parts.noisy_pos[1],
        s.telemetry(parts).pos_alt == parts.noisy_pos[2],
{
}

/// The noise on latitude, longitude and altitude are the next three draws, in this
/// order.
pub proof fn position_noise_is_drawn_in_order(s: GimbalSimulator, noise: [F32Bits; 3])
    requires
        s.is_position_noise(noise),
    ensures
        is_draw(noise[0], s.noise_seed, 1),
        is_draw(noise[1], s.noise_seed, 2),
        is_draw(noise[2], s.noise_seed, 3),
{
}

/// Everything else in the telemetry of a healthy gimbal is what the gimbal has: each
/// quantity stands in the field of its own name.
pub proof fn healthy_telemetry_is_the_gimbal(s: GimbalSimulator, parts: TelemetryParts)
    requires
        !s.faults.gps_loss,
        !s.faults.imu_dropout,
        !s.faults.encoder_fault,
    ensures
        s.telemetry(parts).system_time == s.system_time_ms,
        s.telemetry(parts).vel_ned[0] == s.vel_ned[0],
        s.telemetry(parts).vel_ned[1] == s.vel_ned[1],
        s.telemetry(parts).vel_ned[2] == s.vel_ned[2],
        s.telemetry(parts).tilt == s.tilt_jittered,
        parts.wrapped_pan == s.pan_jittered && s.pan_jittered.spec_abs().below(
            F32Bits { bits: MAX_ANGLE },
        ) ==> s.telemetry(parts).pan == s.pan_jittered,
        s.telemetry(parts).hfov == s.hfov,
        s.telemetry(parts).vfov == s.vfov,
        s.telemetry(parts).mode == s.mode,
        s.telemetry(parts).camera_index == s.camera_index,
        s.telemetry(parts).gimbal_quat == parts.gimbal_quat,
        s.telemetry(parts).ins_quat == Some(parts.platform_quat),
        s.telemetry(parts).los_ecef == parts.los_ecef,
{
}

/// A fault changes only what it is about: time, fields of view, mode, camera, the
/// orientation of the gimbal and the line of sight are reported whatever is broken.
pub proof fn faults_leave_the_rest(s: GimbalSimulator, parts: TelemetryParts)
    ensures
        s.telemetry(parts).system_time == s.system_time_ms,
        s.telemetry(parts).hfov == s.hfov,
        s.telemetry(parts).vfov == s.vfov,
        s.telemetry(parts).mode == s.mode,
        s.telemetry(parts).camera_index == s.camera_index,
        s.telemetry(parts).gimbal_quat == parts.gimbal_quat,
        s.telemetry(parts).los_ecef == parts.los_ecef,
        !s.faults.gps_loss && !s.faults.imu_dropout ==> s.telemetry(parts).vel_ned == s.vel_ned,
        !s.faults.imu_dropout ==> s.telemetry(parts).ins_quat == Some(parts.platform_quat),
        !s.faults.encoder_fault ==> s.telemetry(parts).tilt == s.tilt_jittered,
{
}

/// The laser gives the range from zero, exclusive, up to its own reach, and only
/// while it is on and healthy.
pub proof fn laser_ranges_within_reach(s: GimbalSimulator, parts: TelemetryParts)
    requires
        !s.slant_range_m.nan(),
        !s.config.laser_max_range_m.nan(),
    ensures
        s.telemetry(parts).range_source is RangeSrcLaser <==> {
            &&& s.laser_enabled
            &&& !s.faults.laser_fault
            &&& 0 < s.slant_range_m.rank() <= s.config.laser_max_range_m.rank()
        },
        s.telemetry(parts).range_source is RangeSrcLaser || s.telemetry(parts).range_source
            is RangeSrcNone,
{
}

/// A track size and a confidence within their bounds are reported as they are; others
/// are cut off at the bound on their own side.
pub proof fn track_data_is_the_track(s: GimbalSimulator, parts: TelemetryParts)
    requires
        s.mode is OrionModeTrack,
        !parts.track_size.nan(),
        !parts.track_confidence.nan(),
    ensures
        s.telemetry(parts).primary_track_data matches Some(track) && {
            let (least, most) = (F32Bits { bits: TRACK_SIZE_MIN }, F32Bits { bits: TRACK_SIZE_MAX });
            let one = F32Bits { bits: F32_ONE };
            &&& track.pos[0] == s.track_target[0]
            &&& track.pos[1] == s.track_target[1]
            &&& least.at_most(parts.track_size) && parts.track_size.at_most(most) ==> track.size
                == parts.track_size
            &&& parts.track_size.below(least) ==> track.size == least
            &&& most.below(parts.track_size) ==> track.size == most
            &&& s.track_active ==> {
                &&& (F32Bits { bits: 0 }).at_most(parts.track_confidence)
                    && parts.track_confidence.at_most(one) ==> track.confidence
                    == parts.track_confidence
                &&& parts.track_confidence.rank() < 0 ==> track.confidence.rank() == 0
                &&& one.below(parts.track_confidence) ==> track.confidence == one
            }
        },
{
}

/// Where nothing stands against it (no camera switch, the platform above the
/// ellipsoid, ground in sight, GPS present), the point looked at is reported: the
/// latitude as latitude, the longitude as longitude, both in degrees, and the
/// altitude looked at as altitude.
pub proof fn look_point_is_reported(
    s: GimbalSimulator,
    look_lat_deg: F64Bits,
    look_lon_deg: F64Bits,
    gate_px: u16,
)
    requires
        s.camera_switch_remaining == 0,
        (F64Bits { bits: 0 }).below(s.pos_alt),
        s.look_alt.below(F64Bits { bits: NO_GROUND }),
        !s.faults.gps_loss,
    ensures
        s.response(look_lat_deg, look_lon_deg, gate_px).entity_lat == look_lat_deg,
        s.response(look_lat_deg, look_lon_deg, gate_px).entity_lon == look_lon_deg,
        s.response(look_lat_deg, look_lon_deg, gate_px).entity_alt == s.look_alt,
{
}

/// A line of sight that misses the ground reports no point looked at.
pub proof fn missed_ground_hides_look_point(
    s: GimbalSimulator,
    look_lat_deg: F64Bits,
    look_lon_deg: F64Bits,
    gate_px: u16,
)
    requires
        (F64Bits { bits: NO_GROUND }).at_most(s.look_alt),
    ensures
        s.response(look_lat_deg, look_lon_deg, gate_px).entity_lat == (F64Bits { bits: 0 }),
        s.response(look_lat_deg, look_lon_deg, gate_px).entity_lon == (F64Bits { bits: 0 }),
        s.response(look_lat_deg, look_lon_deg, gate_px).entity_alt == (F64Bits { bits: 0 }),
{
}

/// The tracking gate is where the tracked target is, and in the middle in every other
/// mode. Its size is the one computed, as far as that fits the sensor.
pub proof fn gate_is_on_target(
    s: GimbalSimulator,
    look_lat_deg: F64Bits,
    look_lon_deg: F64Bits,
    gate_px: u16,
)
    ensures
        ({
            let r = s.response(look_lat_deg, look_lon_deg, gate_px);
            &&& s.mode is OrionModeTrack ==> r.gate_x_pos == s.track_target[0] && r.gate_y_pos
                == s.track_target[1]
            &&& !(s.mode is OrionModeTrack) ==> r.gate_x_pos.rank() == 0 && r.gate_y_pos.rank() == 0
            &&& 1 <= gate_px <= 640 ==> r.gate_x_size == gate_px && r.gate_y_size == gate_px
            &&& gate_px > 640 ==> r.gate_x_size == 640 && r.gate_y_size == 640
            &&& gate_px == 0 ==> r.gate_x_size == 1 && r.gate_y_size == 1
        }),
{
}

/// A response tells the time of the gimbal and names no entity.
pub proof fn response_tells_time(
    s: GimbalSimulator,
    look_lat_deg: F64Bits,
    look_lon_deg: F64Bits,
    gate_px: u16,
)
    ensures
        s.response(look_lat_deg, look_lon_deg, gate_px).frame_ctr == s.system_time_ms,
        !s.response(look_lat_deg, look_lon_deg, gate_px).entity_id_valid,
        s.response(look_lat_deg, look_lon_deg, gate_px).view_id == 0,
        s.response(look_lat_deg, look_lon_deg, gate_px).sensor_id == 0,
{
}

/// The status of a response: 0 for a position mode on target, 2 for one under way and
/// for rate mode, 1 for a track that is followed and 3 for one that is lost.
pub proof fn response_tells_status(
    s: GimbalSimulator,
    look_lat_deg: F64Bits,
    look_lon_deg: F64Bits,
    gate_px: u16,
)
    ensures
        ({
            let status = s.response(look_lat_deg, look_lon_deg, gate_px).sensor_status;
            let position = s.mode is OrionModePosition || s.mode is OrionModeGeopoint || s.mode
                is OrionModePositionNoLimits;
            &&& position ==> status == if s.settled { 0u8 } else { 2u8 }
            &&& s.mode is OrionModeRate ==> status == 2
            &&& s.mode is OrionModeTrack ==> status == if s.track_active { 1u8 } else { 3u8 }
            &&& s.mode is OrionModeDisabled ==> status == 3
        }),
{
}

/// What a track is computed from is never zero, and is the gimbal's own wherever that
/// is large enough. The range is known exactly where the laser is healthy and
/// something is met.
pub proof fn track_geometry_never_zero(s: GimbalSimulator)
    requires
        !s.hfov.nan(),
        !s.config.track_loss_threshold.nan(),
        !s.slant_range_m.nan(),
    ensures
        s.geometry().hfov.rank() > 0,
        s.geometry().threshold.rank() > 0,
        (F32Bits { bits: SMALLEST }).below(s.hfov) ==> s.geometry().hfov == s.hfov,
        (F32Bits { bits: SMALLEST }).below(s.config.track_loss_threshold) ==> s.geometry().threshold
            == s.config.track_loss_threshold,
        s.geometry().range_m is Some <==> !s.faults.laser_fault && s.slant_range_m.rank() > 0,
        s.geometry().range_m matches Some(r) ==> r == s.slant_range_m,
{
}

/// A start of frame echoes the host's last frame, counts its own, and tells the time
/// of the gimbal in units of ten microseconds: a hundred to the millisecond.
pub proof fn start_of_frame_tells_time(s: GimbalSimulator)
    ensures
        s.start_of_frame().ig_frame_ctr == s.frame_ctr,
        s.start_of_frame().last_host_frame_number == s.host_frame_ctr,
        s.start_of_frame().ig_mode == s.ig_mode,
        s.start_of_frame().timestamp_10us == 100 * s.system_time_ms,
        s.start_of_frame().minor_version == 3,
        !s.start_of_frame().timestamp_valid,
{
}

} // verus!
