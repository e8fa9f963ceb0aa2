//! The simulated gimbal.
//!
//! [`GimbalSimulator`] holds the state and makes the decisions. Numbers that take
//! arithmetic to find, such as the way left to a target or the point looked at,
//! are handed to its methods.

use vstd::prelude::*;

use crate::bits::{F32Bits, F64Bits, F32_ONE};
use crate::bytes::{signed8, to_signed8};
use crate::cigi::messages::{EntityControl, SensorControl};
use crate::config::{default_view, unit_clamped, Config, CONTINUOUS_PAN};
use crate::convert::to_cigi::control_for;
use crate::convert::MAX_ANGLE;
use crate::faults::FaultState;
use crate::orion::{GeolocateTelemetryCorePacket, OrionCmdPacket, OrionMode};

pub mod axis;
pub mod motion;
pub mod telemetry;

verus! {

/// Ticks of blackout after a camera switch.
pub const CAMERA_SWITCH_FRAMES: u8 = 10;

/// Smaller changes of zoom are ignored (binary32): 0.001.
pub const ZOOM_STEP: u32 = 0x3A83_126F;

/// State of the gimbal, its camera and its platform.
#[derive(Debug, Clone)]
pub struct GimbalSimulator {
    /// Inertial pan (rad, from north).
    pub pan: F32Bits,
    /// Inertial tilt (rad, down positive).
    pub tilt: F32Bits,
    /// Pan rate (rad/s).
    pub pan_rate: F32Bits,
    /// Tilt rate (rad/s).
    pub tilt_rate: F32Bits,
    /// Commanded pan (rad).
    pub target_pan: F32Bits,
    /// Commanded tilt (rad).
    pub target_tilt: F32Bits,
    /// Commanded pan rate (rad/s).
    pub pan_rate_cmd: F32Bits,
    /// Commanded tilt rate (rad/s).
    pub tilt_rate_cmd: F32Bits,
    /// The last pan command went beyond the limit.
    pub at_pan_limit: bool,
    /// The last tilt command went beyond the limit.
    pub at_tilt_limit: bool,
    /// What the gimbal does.
    pub mode: OrionMode,
    /// Horizontal field of view (rad).
    pub hfov: F32Bits,
    /// Vertical field of view (rad).
    pub vfov: F32Bits,
    /// Zoom, from 0 (wide) to 1 (narrow).
    pub zoom_level: F32Bits,
    /// Selected camera.
    pub camera_index: i8,
    /// Ticks left of the blackout after a camera switch.
    pub camera_switch_remaining: u8,
    /// Platform latitude (rad).
    pub pos_lat: F64Bits,
    /// Platform longitude (rad).
    pub pos_lon: F64Bits,
    /// Platform altitude (m).
    pub pos_alt: F64Bits,
    /// Platform latitude before the last update (rad).
    pub prev_pos_lat: F64Bits,
    /// Platform longitude before the last update (rad).
    pub prev_pos_lon: F64Bits,
    /// Platform altitude before the last update (m).
    pub prev_pos_alt: F64Bits,
    /// Platform roll (rad).
    pub platform_roll: F32Bits,
    /// Platform pitch (rad).
    pub platform_pitch: F32Bits,
    /// Platform heading (rad).
    pub platform_yaw: F32Bits,
    /// Velocity north, east and down (m/s).
    pub vel_ned: [F32Bits; 3],
    /// Latitude of the point looked at (rad).
    pub look_lat: F64Bits,
    /// Longitude of the point looked at (rad).
    pub look_lon: F64Bits,
    /// Altitude of the point looked at (m).
    pub look_alt: F64Bits,
    /// Commanded latitude in geopoint mode (rad).
    pub geopoint_lat: F64Bits,
    /// Commanded longitude in geopoint mode (rad).
    pub geopoint_lon: F64Bits,
    /// Commanded altitude in geopoint mode (m).
    pub geopoint_alt: F64Bits,
    /// Offset of the tracked target from the image centre, as fractions of the field of view.
    pub track_target: [F32Bits; 2],
    /// The target is tracked.
    pub track_active: bool,
    /// Horizontal target offset of the tick before.
    pub prev_track_x: F32Bits,
    /// Vertical target offset of the tick before.
    pub prev_track_y: F32Bits,
    /// Phase of the first resonance (cycles).
    pub jitter_phase: F32Bits,
    /// Phase of the second resonance (cycles).
    pub jitter_phase_2: F32Bits,
    /// State of the noise generator.
    pub noise_seed: u32,
    /// Jitter in pan (rad).
    pub pan_jitter: F32Bits,
    /// Jitter in tilt (rad).
    pub tilt_jitter: F32Bits,
    /// Pan with jitter (rad).
    pub pan_jittered: F32Bits,
    /// Tilt with jitter (rad).
    pub tilt_jittered: F32Bits,
    /// The laser rangefinder is on.
    pub laser_enabled: bool,
    /// Distance to the point looked at (m); 0 where there is none.
    pub slant_range_m: F64Bits,
    /// A position mode has both axes on target.
    pub settled: bool,
    /// Injected faults.
    pub faults: FaultState,
    /// Ticks so far.
    pub frame_ctr: u32,
    /// Time so far (ms).
    pub system_time_ms: u32,
    /// Mode of the image generator.
    pub ig_mode: u8,
    /// Last frame number of the host.
    pub host_frame_ctr: u32,
    /// Settings.
    pub config: Config,
}

/// A gimbal that has not moved yet.
pub open spec fn fresh(config: Config, hfov: F32Bits, vfov: F32Bits) -> GimbalSimulator {
    let z = F32Bits { bits: 0 };
    let zero = F64Bits { bits: 0 };
    GimbalSimulator {
        pan: z,
        tilt: z,
        pan_rate: z,
        tilt_rate: z,
        target_pan: z,
        target_tilt: z,
        pan_rate_cmd: z,
        tilt_rate_cmd: z,
        at_pan_limit: false,
        at_tilt_limit: false,
        mode: OrionMode::OrionModeDisabled,
        hfov,
        vfov,
        zoom_level: z,
        camera_index: 0,
        camera_switch_remaining: 0,
        pos_lat: zero,
        pos_lon: zero,
        pos_alt: zero,
        prev_pos_lat: zero,
        prev_pos_lon: zero,
        prev_pos_alt: zero,
        platform_roll: z,
        platform_pitch: z,
        platform_yaw: z,
        vel_ned: [z, z, z],
        look_lat: zero,
        look_lon: zero,
        look_alt: zero,
        geopoint_lat: zero,
        geopoint_lon: zero,
        geopoint_alt: zero,
        track_target: [z, z],
        track_active: false,
        prev_track_x: z,
        prev_track_y: z,
        jitter_phase: z,
        jitter_phase_2: z,
        noise_seed: 0xDEAD_BEEF,
        pan_jitter: z,
        tilt_jitter: z,
        pan_jittered: z,
        tilt_jittered: z,
        laser_enabled: true,
        slant_range_m: zero,
        settled: false,
        faults: FaultState::nominal(),
        frame_ctr: 0,
        system_time_ms: 0,
        ig_mode: 0,
        host_frame_ctr: 0,
        config,
    }
}

impl Default for GimbalSimulator {
    /// A gimbal with the default settings, its camera at the wide end.
    fn default() -> (r: Self)
        ensures
            r.config@ == default_view(),
            r == fresh(r.config, r.config.hfov_wide, r.config.vfov_wide),
    {
        let cfg = Config::default();
        let hfov = cfg.hfov_wide;
        let vfov = cfg.vfov_wide;
        GimbalSimulator::with_config(cfg, hfov, vfov)
    }
}

impl GimbalSimulator {
    /// A gimbal with the given settings. `hfov` and `vfov` are the field of view of
    /// camera 0 at the wide end.
    pub fn with_config(config: Config, hfov: F32Bits, vfov: F32Bits) -> (r: Self)
        ensures
            r == fresh(config, hfov, vfov),
    {
        let z = F32Bits::from_bits(0);
        let zero = F64Bits::from_bits(0);
        GimbalSimulator {
            pan: z,
            tilt: z,
            pan_rate: z,
            tilt_rate: z,
            target_pan: z,
            target_tilt: z,
            pan_rate_cmd: z,
            tilt_rate_cmd: z,
            at_pan_limit: false,
            at_tilt_limit: false,
            mode: OrionMode::OrionModeDisabled,
            hfov,
            vfov,
            zoom_level: z,
            camera_index: 0,
            camera_switch_remaining: 0,
            pos_lat: zero,
            pos_lon: zero,
            pos_alt: zero,
            prev_pos_lat: zero,
            prev_pos_lon: zero,
            prev_pos_alt: zero,
            platform_roll: z,
            platform_pitch: z,
            platform_yaw: z,
            vel_ned: [z, z, z],
            look_lat: zero,
            look_lon: zero,
            look_alt: zero,
            geopoint_lat: zero,
            geopoint_lon: zero,
            geopoint_alt: zero,
            track_target: [z, z],
            track_active: false,
            prev_track_x: z,
            prev_track_y: z,
            jitter_phase: z,
            jitter_phase_2: z,
            noise_seed: 0xDEAD_BEEF,
            pan_jitter: z,
            tilt_jitter: z,
            pan_jittered: z,
            tilt_jittered: z,
            laser_enabled: true,
            slant_range_m: zero,
            settled: false,
            faults: FaultState::default(),
            frame_ctr: 0,
            system_time_ms: 0,
            ig_mode: 0,
            host_frame_ctr: 0,
            config,
        }
    }
}

// ── Angles ─────────────────────────────────────────────────────────────

/// An angle from minus half a turn up to half a turn (rad), where minus half a turn
/// counts as half a turn.
pub open spec fn half_turn(wrapped: F32Bits) -> F32Bits {
    let half = F32Bits { bits: MAX_ANGLE };
    if wrapped.at_most(half.spec_neg()) {
        half
    } else {
        wrapped
    }
}

/// Takes minus half a turn for half a turn (rad). `wrapped` is an angle less whole
/// turns.
pub fn into_half_turn(wrapped: F32Bits) -> (r: F32Bits)
    ensures
        r == half_turn(wrapped),
{
    let half = F32Bits::from_bits(MAX_ANGLE);
    if wrapped.le(half.neg()) {
        half
    } else {
        wrapped
    }
}

// ── Targets and limits ─────────────────────────────────────────────────

impl GimbalSimulator {
    /// Pan turns without a stop.
    pub open spec fn continuous_pan(self) -> bool {
        (F32Bits { bits: CONTINUOUS_PAN }).at_most(self.config.pan_limit)
    }

    /// The pan limits of the settings bound a range, where pan has limits.
    pub open spec fn pan_limits_ok(self) -> bool {
        !self.continuous_pan() ==> self.config.pan_limit.spec_neg().at_most(self.config.pan_limit)
    }

    /// The tilt limits of the settings bound a range.
    pub open spec fn tilt_limits_ok(self) -> bool {
        self.config.tilt_min.at_most(self.config.tilt_max)
    }

    /// The limits of the settings bound a range on either axis.
    pub open spec fn limits_ok(self) -> bool {
        self.pan_limits_ok() && self.tilt_limits_ok()
    }

    /// Pan within its limits; any pan where it turns without a stop.
    pub open spec fn pan_limited(self, pan: F32Bits) -> F32Bits {
        if self.continuous_pan() {
            pan
        } else {
            pan.spec_clamp(self.config.pan_limit.spec_neg(), self.config.pan_limit)
        }
    }

    /// Tilt within its limits.
    pub open spec fn tilt_limited(self, tilt: F32Bits) -> F32Bits {
        tilt.spec_clamp(self.config.tilt_min, self.config.tilt_max)
    }

    /// Pan within its limits; any pan where it turns without a stop.
    pub fn limit_pan(&self, pan: F32Bits) -> (r: F32Bits)
        requires
            self.pan_limits_ok(),
        ensures
            r == self.pan_limited(pan),
    {
        if self.config.is_continuous_pan() {
            pan
        } else {
            pan.clamp(self.config.pan_limit.neg(), self.config.pan_limit)
        }
    }

    /// Tilt within its limits.
    pub fn limit_tilt(&self, tilt: F32Bits) -> (r: F32Bits)
        requires
            self.tilt_limits_ok(),
        ensures
            r == self.tilt_limited(tilt),
    {
        tilt.clamp(self.config.tilt_min, self.config.tilt_max)
    }

    /// New targets. Where pan turns without a stop, its target is `wrapped_pan`;
    /// otherwise `raw_pan` is cut off at the limits. A flag tells of each axis
    /// whether its limit was exceeded.
    pub open spec fn with_target(
        self,
        raw_pan: F32Bits,
        raw_tilt: F32Bits,
        wrapped_pan: F32Bits,
    ) -> GimbalSimulator {
        GimbalSimulator {
            target_pan: if self.continuous_pan() {
                wrapped_pan
            } else {
                self.pan_limited(raw_pan)
            },
            at_pan_limit: !self.continuous_pan() && self.config.pan_limit.below(
                raw_pan.spec_abs(),
            ),
            target_tilt: self.tilt_limited(raw_tilt),
            at_tilt_limit: raw_tilt.below(self.config.tilt_min) || self.config.tilt_max.below(
                raw_tilt,
            ),
            ..self
        }
    }

    /// Sets new targets. `wrapped_pan` is the angle that stands for `raw_pan` on
    /// the shortest way from the present pan.
    pub fn set_target(&mut self, raw_pan: F32Bits, raw_tilt: F32Bits, wrapped_pan: F32Bits)
        requires
            old(self).limits_ok(),
        ensures
            *final(self) == old(self).with_target(raw_pan, raw_tilt, wrapped_pan),
    {
        if self.config.is_continuous_pan() {
            self.target_pan = wrapped_pan;
            self.at_pan_limit = false;
        } else {
            self.at_pan_limit = self.config.pan_limit.lt(raw_pan.abs());
            self.target_pan = self.limit_pan(raw_pan);
        }
        self.at_tilt_limit = raw_tilt.lt(self.config.tilt_min) || self.config.tilt_max.lt(raw_tilt);
        self.target_tilt = self.limit_tilt(raw_tilt);
    }
}

// ── Commands ───────────────────────────────────────────────────────────

/// What the fields of a sensor control stand for in each mode.
#[derive(Debug, Clone, Copy, PartialEq, Eq)]
pub struct ControlTargets {
    /// Pan and tilt rates (rad/s) that gain and level stand for.
    pub rates: [F32Bits; 2],
    /// Target offsets that gain and level stand for.
    pub track: [F32Bits; 2],
    /// Latitude (rad) that the coupling stands for.
    pub geopoint_lat: F64Bits,
    /// Longitude (rad) that the noise stands for.
    pub geopoint_lon: F64Bits,
    /// Pan and tilt (rad) that gain and level stand for.
    pub angles: [F32Bits; 2],
    /// The same pan on the shortest way from the present pan (rad).
    pub wrapped_pan: F32Bits,
    /// The coupling, limited to 0 up to 1, less the present zoom.
    pub zoom_change: F32Bits,
}

/// The mode that a sensor control selects.
pub open spec fn commanded_mode(sc: SensorControl) -> OrionMode {
    if sc.sensor_state == 0 {
        OrionMode::OrionModeDisabled
    } else if sc.sensor_state == 2 {
        OrionMode::OrionModeTrack
    } else if sc.sensor_state == 4 {
        OrionMode::OrionModeGeopoint
    } else if sc.track_mode % 2 == 1 {
        OrionMode::OrionModeRate
    } else {
        OrionMode::OrionModePosition
    }
}

/// The mode that a sensor control selects.
pub fn select_mode(sc: &SensorControl) -> (r: OrionMode)
    ensures
        r == commanded_mode(*sc),
{
    match sc.sensor_state {
        0 => OrionMode::OrionModeDisabled,
        2 => OrionMode::OrionModeTrack,
        4 => OrionMode::OrionModeGeopoint,
        _ => if sc.track_mode % 2 == 1 {
            OrionMode::OrionModeRate
        } else {
            OrionMode::OrionModePosition
        },
    }
}

/// The sensor control gives angles to move to.
pub open spec fn takes_angles(sc: SensorControl) -> bool {
    commanded_mode(sc) is OrionModePosition || commanded_mode(sc) is OrionModeDisabled
}

impl GimbalSimulator {
    /// The mode of a sensor control, and the targets of that mode.
    pub open spec fn aimed(self, sc: SensorControl, t: ControlTargets) -> GimbalSimulator {
        let s = GimbalSimulator { mode: commanded_mode(sc), ..self };
        match s.mode {
            OrionMode::OrionModeRate => GimbalSimulator {
                pan_rate_cmd: t.rates[0],
                tilt_rate_cmd: t.rates[1],
                ..s
            },
            OrionMode::OrionModeTrack => GimbalSimulator {
                track_target: t.track,
                track_active: true,
                prev_track_x: t.track[0],
                prev_track_y: t.track[1],
                ..s
            },
            OrionMode::OrionModeGeopoint => GimbalSimulator {
                geopoint_lat: t.geopoint_lat,
                geopoint_lon: t.geopoint_lon,
                geopoint_alt: s.config.geopoint_alt_m,
                ..s
            },
            _ => s.with_target(t.angles[0], t.angles[1], t.wrapped_pan),
        }
    }

    /// The sensor control changes the zoom: it is for a mode with zoom and the
    /// change is large enough.
    pub open spec fn zooms(sc: SensorControl, t: ControlTargets) -> bool {
        &&& commanded_mode(sc) is OrionModePosition || commanded_mode(sc) is OrionModeRate
        &&& (F32Bits { bits: ZOOM_STEP }).below(t.zoom_change.spec_abs())
    }

    /// The sensor control selects another camera.
    pub open spec fn switches_camera(self, sc: SensorControl) -> bool {
        signed8(sc.sensor_id) != self.camera_index
    }

    /// The sensor control changes camera or zoom.
    pub open spec fn refreshes(self, sc: SensorControl, t: ControlTargets) -> bool {
        GimbalSimulator::zooms(sc, t) || self.switches_camera(sc)
    }

    /// The gimbal after a sensor control.
    pub open spec fn controlled(self, sc: SensorControl, t: ControlTargets) -> GimbalSimulator {
        let s = self.aimed(sc, t);
        GimbalSimulator {
            zoom_level: if GimbalSimulator::zooms(sc, t) {
                unit_clamped(sc.ac_coupling)
            } else {
                s.zoom_level
            },
            camera_index: signed8(sc.sensor_id),
            camera_switch_remaining: if self.switches_camera(sc) {
                CAMERA_SWITCH_FRAMES
            } else {
                s.camera_switch_remaining
            },
            ..s
        }
    }

    /// Selects the mode of a sensor control and takes its targets.
    fn aim(&mut self, sc: &SensorControl, t: &ControlTargets)
        requires
            takes_angles(*sc) ==> old(self).limits_ok(),
        ensures
            *final(self) == old(self).aimed(*sc, *t),
    {
        self.mode = select_mode(sc);
        match self.mode {
            OrionMode::OrionModeRate => {
                self.pan_rate_cmd = t.rates[0];
                self.tilt_rate_cmd = t.rates[1];
            },
            OrionMode::OrionModeTrack => {
                self.track_target = t.track;
                self.track_active = true;
                self.prev_track_x = t.track[0];
                self.prev_track_y = t.track[1];
            },
            OrionMode::OrionModeGeopoint => {
                self.geopoint_lat = t.geopoint_lat;
                self.geopoint_lon = t.geopoint_lon;
                self.geopoint_alt = self.config.geopoint_alt_m;
            },
            _ => {
                self.set_target(t.angles[0], t.angles[1], t.wrapped_pan);
            },
        }
    }

    /// Applies a sensor control. The result tells whether camera or zoom changed:
    /// the field of view then has to be set anew, with [`GimbalSimulator::set_fov`].
    pub fn apply_sensor_control(&mut self, sc: &SensorControl, t: &ControlTargets) -> (refresh:
        bool)
        requires
            takes_angles(*sc) ==> old(self).limits_ok(),
        ensures
            *final(self) == old(self).controlled(*sc, *t),
            refresh == old(self).refreshes(*sc, *t),
            refresh == (GimbalSimulator::zooms(*sc, *t) || old(self).switches_camera(*sc)),
    {
        self.aim(sc, t);
        let has_zoom: bool = match self.mode {
            OrionMode::OrionModePosition | OrionMode::OrionModeRate => true,
            _ => false,
        };
        let zooms: bool = has_zoom && F32Bits::from_bits(ZOOM_STEP).lt(t.zoom_change.abs());
        if zooms {
            self.zoom_level = sc.ac_coupling.clamp(
                F32Bits::from_bits(0),
                F32Bits::from_bits(F32_ONE),
            );
        }
        let new_cam: i8 = to_signed8(sc.sensor_id);
        let switches: bool = new_cam != self.camera_index;
        if switches {
            self.camera_index = new_cam;
            self.camera_switch_remaining = CAMERA_SWITCH_FRAMES;
        }
        zooms || switches
    }

    /// With another field of view (rad).
    pub open spec fn with_fov(self, hfov: F32Bits, vfov: F32Bits) -> GimbalSimulator {
        GimbalSimulator { hfov, vfov, ..self }
    }

    /// Sets the field of view (rad).
    pub fn set_fov(&mut self, hfov: F32Bits, vfov: F32Bits)
        ensures
            *final(self) == old(self).with_fov(hfov, vfov),
            *final(self) == (GimbalSimulator { hfov, vfov, ..*old(self) }),
    {
        self.hfov = hfov;
        self.vfov = vfov;
    }
}

/// An entity control in radians, and the velocity it implies.
#[derive(Debug, Clone, Copy, PartialEq, Eq)]
pub struct EntityPose {
    pub lat_rad: F64Bits,
    pub lon_rad: F64Bits,
    pub roll_rad: F32Bits,
    pub pitch_rad: F32Bits,
    pub yaw_rad: F32Bits,
    /// Velocity north, east and down (m/s).
    pub vel_ned: [F32Bits; 3],
}

impl GimbalSimulator {
    /// The gimbal on a platform that has moved.
    pub open spec fn carried(self, ec: EntityControl, pose: EntityPose) -> GimbalSimulator {
        GimbalSimulator {
            prev_pos_lat: self.pos_lat,
            prev_pos_lon: self.pos_lon,
            prev_pos_alt: self.pos_alt,
            pos_lat: pose.lat_rad,
            pos_lon: pose.lon_rad,
            pos_alt: ec.alt_or_z,
            platform_roll: pose.roll_rad,
            platform_pitch: pose.pitch_rad,
            platform_yaw: pose.yaw_rad,
            vel_ned: pose.vel_ned,
            ..self
        }
    }

    /// Applies an entity control: the platform moves there. `pose` is the same
    /// pose in radians.
    pub fn apply_entity_control(&mut self, ec: &EntityControl, pose: &EntityPose)
        ensures
            *final(self) == old(self).carried(*ec, *pose),
            *final(self) == (GimbalSimulator {
                prev_pos_lat: old(self).pos_lat,
                prev_pos_lon: old(self).pos_lon,
                prev_pos_alt: old(self).pos_alt,
                pos_lat: pose.lat_rad,
                pos_lon: pose.lon_rad,
                pos_alt: ec.alt_or_z,
                platform_roll: pose.roll_rad,
                platform_pitch: pose.pitch_rad,
                platform_yaw: pose.yaw_rad,
                vel_ned: pose.vel_ned,
                ..*old(self)
            }),
    {
        self.prev_pos_lat = self.pos_lat;
        self.prev_pos_lon = self.pos_lon;
        self.prev_pos_alt = self.pos_alt;
        self.pos_lat = pose.lat_rad;
        self.pos_lon = pose.lon_rad;
        self.pos_alt = ec.alt_or_z;
        self.platform_roll = pose.roll_rad;
        self.platform_pitch = pose.pitch_rad;
        self.platform_yaw = pose.yaw_rad;
        self.vel_ned = pose.vel_ned;
    }
}

/// A point on the earth that is looked at, and its distance.
#[derive(Debug, Clone, Copy, PartialEq, Eq, Structural)]
pub struct LookPoint {
    /// Latitude (rad).
    pub lat: F64Bits,
    /// Longitude (rad).
    pub lon: F64Bits,
    /// Altitude (m).
    pub alt: F64Bits,
    /// Distance (m).
    pub slant_range_m: F64Bits,
}

impl GimbalSimulator {
    /// The gimbal after its line of sight was followed. Where it meets nothing,
    /// the last point stays and the distance is 0. With a laser fault the distance
    /// is 0 in any case.
    pub open spec fn located(self, hit: Option<LookPoint>) -> GimbalSimulator {
        match hit {
            Some(p) => GimbalSimulator {
                look_lat: p.lat,
                look_lon: p.lon,
                look_alt: p.alt,
                slant_range_m: if self.faults.laser_fault {
                    F64Bits { bits: 0 }
                } else {
                    p.slant_range_m
                },
                ..self
            },
            None => GimbalSimulator { slant_range_m: F64Bits { bits: 0 }, ..self },
        }
    }

    /// Sets the point looked at.
    pub fn locate(&mut self, hit: Option<LookPoint>)
        ensures
            *final(self) == old(self).located(hit),
    {
        match hit {
            Some(p) => {
                self.look_lat = p.lat;
                self.look_lon = p.lon;
                self.look_alt = p.alt;
                self.slant_range_m = if self.faults.laser_fault {
                    F64Bits::from_bits(0)
                } else {
                    p.slant_range_m
                };
            },
            None => {
                self.slant_range_m = F64Bits::from_bits(0);
            },
        }
    }

    /// The gimbal in the pose that a real gimbal reports. Commands and targets
    /// stay; the reported angles hold the real jitter already.
    pub open spec fn mirrored(self, telem: GeolocateTelemetryCorePacket) -> GimbalSimulator {
        GimbalSimulator {
            pan: telem.pan,
            tilt: telem.tilt,
            hfov: telem.hfov,
            vfov: telem.vfov,
            mode: telem.mode,
            pos_lat: telem.pos_lat,
            pos_lon: telem.pos_lon,
            pos_alt: telem.pos_alt,
            vel_ned: telem.vel_ned,
            camera_index: telem.camera_index,
            system_time_ms: telem.system_time,
            pan_jittered: telem.pan,
            tilt_jittered: telem.tilt,
            pan_jitter: F32Bits { bits: 0 },
            tilt_jitter: F32Bits { bits: 0 },
            ..self
        }
    }

    /// Takes over the telemetry of a real gimbal. `hit` is the point looked at from
    /// the reported pose.
    pub fn apply_hardware_telemetry(
        &mut self,
        telem: &GeolocateTelemetryCorePacket,
        hit: Option<LookPoint>,
    )
        ensures
            *final(self) == old(self).mirrored(*telem).located(hit),
    {
        self.pan = telem.pan;
        self.tilt = telem.tilt;
        self.hfov = telem.hfov;
        self.vfov = telem.vfov;
        self.mode = telem.mode;
        self.pos_lat = telem.pos_lat;
        self.pos_lon = telem.pos_lon;
        self.pos_alt = telem.pos_alt;
        self.vel_ned = telem.vel_ned;
        self.camera_index = telem.camera_index;
        self.system_time_ms = telem.system_time;
        self.pan_jittered = self.pan;
        self.tilt_jittered = self.tilt;
        self.pan_jitter = F32Bits::from_bits(0);
        self.tilt_jitter = F32Bits::from_bits(0);
        self.locate(hit);
    }
}

// ── Laws ───────────────────────────────────────────────────────────────

/// Targets lie within the limits, whatever was commanded.
pub proof fn targets_within_limits(
    s: GimbalSimulator,
    raw_pan: F32Bits,
    raw_tilt: F32Bits,
    wrapped_pan: F32Bits,
)
    requires
        s.limits_ok(),
        !raw_pan.nan(),
        !raw_tilt.nan(),
    ensures
        !s.continuous_pan() ==> s.config.pan_limit.spec_neg().at_most(
            s.with_target(raw_pan, raw_tilt, wrapped_pan).target_pan,
        ) && s.with_target(raw_pan, raw_tilt, wrapped_pan).target_pan.at_most(s.config.pan_limit),
        s.config.tilt_min.at_most(s.with_target(raw_pan, raw_tilt, wrapped_pan).target_tilt),
        s.with_target(raw_pan, raw_tilt, wrapped_pan).target_tilt.at_most(s.config.tilt_max),
{
}

/// A target within the limits is taken as it is, and no limit is flagged.
pub proof fn targets_in_range_kept(
    s: GimbalSimulator,
    raw_pan: F32Bits,
    raw_tilt: F32Bits,
    wrapped_pan: F32Bits,
)
    requires
        s.limits_ok(),
        !s.continuous_pan(),
        raw_pan.spec_abs().at_most(s.config.pan_limit),
        s.config.tilt_min.at_most(raw_tilt),
        raw_tilt.at_most(s.config.tilt_max),
    ensures
        s.with_target(raw_pan, raw_tilt, wrapped_pan).target_pan == raw_pan,
        s.with_target(raw_pan, raw_tilt, wrapped_pan).target_tilt == raw_tilt,
        !s.with_target(raw_pan, raw_tilt, wrapped_pan).at_pan_limit,
        !s.with_target(raw_pan, raw_tilt, wrapped_pan).at_tilt_limit,
{
}

/// A sensor control does not move the gimbal at once: angles and rates are as
/// before, and so are the settings and the faults.
pub proof fn control_does_not_move(s: GimbalSimulator, sc: SensorControl, t: ControlTargets)
    ensures
        s.controlled(sc, t).pan == s.pan,
        s.controlled(sc, t).tilt == s.tilt,
        s.controlled(sc, t).pan_rate == s.pan_rate,
        s.controlled(sc, t).tilt_rate == s.tilt_rate,
        s.controlled(sc, t).config == s.config,
        s.controlled(sc, t).faults == s.faults,
{
}

/// Zoom survives a camera switch in a mode without zoom.
pub proof fn switch_keeps_zoom(s: GimbalSimulator, sc: SensorControl, t: ControlTargets)
    requires
        !GimbalSimulator::zooms(sc, t),
    ensures
        s.controlled(sc, t).zoom_level == s.zoom_level,
{
}

/// A laser fault leaves no distance, wherever the gimbal looks.
pub proof fn laser_fault_forces_range(s: GimbalSimulator, hit: Option<LookPoint>)
    requires
        s.faults.laser_fault,
    ensures
        s.located(hit).slant_range_m == (F64Bits { bits: 0 }),
{
}

/// A position command arrives as it was sent. The sensor control for it carries
/// `scaled`, and `decode` is how angles are read from a sensor control: the targets
/// are the angles decoded from `scaled`, and so those of the command where decoding
/// undoes the scaling. No limit is flagged.
pub proof fn position_command_arrives(
    s: GimbalSimulator,
    cmd: OrionCmdPacket,
    scaled: [F32Bits; 2],
    camera_index: i8,
    zoom_level: F32Bits,
    t: ControlTargets,
    decode: spec_fn(F32Bits) -> F32Bits,
)
    requires
        cmd.cmd.mode is OrionModePosition,
        s.limits_ok(),
        !s.continuous_pan(),
        in_unit(scaled[0]),
        in_unit(scaled[1]),
        t.angles[0] == decode(control_for(cmd, scaled, camera_index, zoom_level).gain),
        t.angles[1] == decode(control_for(cmd, scaled, camera_index, zoom_level).level),
        decode(scaled[0]).spec_abs().at_most(s.config.pan_limit),
        s.config.tilt_min.at_most(decode(scaled[1])),
        decode(scaled[1]).at_most(s.config.tilt_max),
    ensures
        ({
            let after = s.controlled(control_for(cmd, scaled, camera_index, zoom_level), t);
            &&& after.mode is OrionModePosition
            &&& after.target_pan == decode(scaled[0])
            &&& after.target_tilt == decode(scaled[1])
            &&& !after.at_pan_limit && !after.at_tilt_limit
            &&& decode(scaled[0]) == cmd.cmd.target[0] ==> after.target_pan == cmd.cmd.target[0]
            &&& decode(scaled[1]) == cmd.cmd.target[1] ==> after.target_tilt == cmd.cmd.target[1]
        }),
{
    targets_in_range_kept(s, t.angles[0], t.angles[1], t.wrapped_pan);
}

/// A number from 0 up to 1.
pub open spec fn in_unit(x: F32Bits) -> bool {
    (F32Bits { bits: 0 }).at_most(x) && x.at_most(F32Bits { bits: F32_ONE })
}

/// What a sensor control for an Orion command selects is the mode of the command,
/// for the modes that a sensor control can tell.
pub proof fn command_selects_its_mode(
    cmd: OrionCmdPacket,
    scaled: [F32Bits; 2],
    camera_index: i8,
    zoom_level: F32Bits,
)
    requires
        cmd.cmd.mode is OrionModeDisabled || cmd.cmd.mode is OrionModePosition
            || cmd.cmd.mode is OrionModeRate || cmd.cmd.mode is OrionModeTrack
            || cmd.cmd.mode is OrionModeGeopoint,
    ensures
        commanded_mode(control_for(cmd, scaled, camera_index, zoom_level)) == cmd.cmd.mode,
{
}

/// Telemetry of a real gimbal leaves commands and targets alone.
pub proof fn hardware_keeps_commands(
    s: GimbalSimulator,
    telem: GeolocateTelemetryCorePacket,
    hit: Option<LookPoint>,
)
    ensures
        s.mirrored(telem).located(hit).target_pan == s.target_pan,
        s.mirrored(telem).located(hit).target_tilt == s.target_tilt,
        s.mirrored(telem).located(hit).pan_rate_cmd == s.pan_rate_cmd,
        s.mirrored(telem).located(hit).tilt_rate_cmd == s.tilt_rate_cmd,
        s.mirrored(telem).located(hit).geopoint_lat == s.geopoint_lat,
        s.mirrored(telem).located(hit).geopoint_lon == s.geopoint_lon,
        s.mirrored(telem).located(hit).track_target == s.track_target,
{
}

/// The mode that a sensor control selects: 0 disables, 2 tracks, 4 aims at a point on
/// the earth, and with any other state the lowest bit of the track mode tells rate
/// from position. Whatever else the control holds does not matter.
pub proof fn state_tells_mode(s: GimbalSimulator, sc: SensorControl, t: ControlTargets)
    ensures
        sc.sensor_state == 0 ==> s.controlled(sc, t).mode is OrionModeDisabled,
        sc.sensor_state == 2 ==> s.controlled(sc, t).mode is OrionModeTrack,
        sc.sensor_state == 4 ==> s.controlled(sc, t).mode is OrionModeGeopoint,
        sc.sensor_state != 0 && sc.sensor_state != 2 && sc.sensor_state != 4 ==> {
            &&& sc.track_mode % 2 == 1 ==> s.controlled(sc, t).mode is OrionModeRate
            &&& sc.track_mode % 2 == 0 ==> s.controlled(sc, t).mode is OrionModePosition
        },
{
}

/// Geopoint mode takes over the point on the earth: the latitude that the coupling
/// stands for as latitude, the longitude that the noise stands for as longitude, and
/// the altitude of the settings. No other command changes.
pub proof fn geopoint_is_taken_over(s: GimbalSimulator, sc: SensorControl, t: ControlTargets)
    requires
        sc.sensor_state == 4,
    ensures
        s.controlled(sc, t).geopoint_lat == t.geopoint_lat,
        s.controlled(sc, t).geopoint_lon == t.geopoint_lon,
        s.controlled(sc, t).geopoint_alt == s.config.geopoint_alt_m,
        s.controlled(sc, t).target_pan == s.target_pan,
        s.controlled(sc, t).target_tilt == s.target_tilt,
        s.controlled(sc, t).pan_rate_cmd == s.pan_rate_cmd,
        s.controlled(sc, t).tilt_rate_cmd == s.tilt_rate_cmd,
        s.controlled(sc, t).track_target == s.track_target,
        s.controlled(sc, t).track_active == s.track_active,
        s.controlled(sc, t).zoom_level == s.zoom_level,
{
}

/// Rate mode takes over the rates: that of the gain for pan, that of the level for
/// tilt. No other command changes.
pub proof fn rates_are_taken_over(s: GimbalSimulator, sc: SensorControl, t: ControlTargets)
    requires
        sc.sensor_state == 1,
        sc.track_mode % 2 == 1,
    ensures
        s.controlled(sc, t).pan_rate_cmd == t.rates[0],
        s.controlled(sc, t).tilt_rate_cmd == t.rates[1],
        s.controlled(sc, t).target_pan == s.target_pan,
        s.controlled(sc, t).target_tilt == s.target_tilt,
        s.controlled(sc, t).track_target == s.track_target,
        s.controlled(sc, t).track_active == s.track_active,
        s.controlled(sc, t).geopoint_lat == s.geopoint_lat,
        s.controlled(sc, t).geopoint_lon == s.geopoint_lon,
        s.controlled(sc, t).geopoint_alt == s.geopoint_alt,
{
}

/// Track mode takes over the target and begins to track it. The offsets of the tick
/// before are the same, so that the first tick sees no change. No other command
/// changes.
pub proof fn track_is_taken_over(s: GimbalSimulator, sc: SensorControl, t: ControlTargets)
    requires
        sc.sensor_state == 2,
    ensures
        s.controlled(sc, t).track_target[0] == t.track[0],
        s.controlled(sc, t).track_target[1] == t.track[1],
        s.controlled(sc, t).prev_track_x == t.track[0],
        s.controlled(sc, t).prev_track_y == t.track[1],
        s.controlled(sc, t).track_active,
        s.controlled(sc, t).target_pan == s.target_pan,
        s.controlled(sc, t).target_tilt == s.target_tilt,
        s.controlled(sc, t).pan_rate_cmd == s.pan_rate_cmd,
        s.controlled(sc, t).tilt_rate_cmd == s.tilt_rate_cmd,
        s.controlled(sc, t).geopoint_lat == s.geopoint_lat,
        s.controlled(sc, t).geopoint_lon == s.geopoint_lon,
        s.controlled(sc, t).geopoint_alt == s.geopoint_alt,
        s.controlled(sc, t).zoom_level == s.zoom_level,
{
}

/// Position mode and disabling take over the angles: that of the gain for pan, that of
/// the level for tilt, as far as the limits let them. No other command changes.
pub proof fn angles_are_taken_over(s: GimbalSimulator, sc: SensorControl, t: ControlTargets)
    requires
        sc.sensor_state == 0 || (sc.sensor_state == 1 && sc.track_mode % 2 == 0),
        s.limits_ok(),
        !t.angles[0].nan(),
        !t.angles[1].nan(),
    ensures
        ({
            let after = s.controlled(sc, t);
            let limit = s.config.pan_limit;
            &&& s.continuous_pan() ==> after.target_pan == t.wrapped_pan && !after.at_pan_limit
            &&& !s.continuous_pan() ==> {
                &&& t.angles[0].spec_abs().at_most(limit) ==> after.target_pan == t.angles[0]
                &&& limit.below(t.angles[0]) ==> after.target_pan.rank() == limit.rank()
                &&& t.angles[0].below(limit.spec_neg()) ==> after.target_pan.rank() == -limit.rank()
                &&& after.at_pan_limit <==> limit.below(t.angles[0].spec_abs())
            }
            &&& s.config.tilt_min.at_most(t.angles[1]) && t.angles[1].at_most(s.config.tilt_max)
                ==> after.target_tilt == t.angles[1] && !after.at_tilt_limit
            &&& t.angles[1].below(s.config.tilt_min) ==> after.target_tilt == s.config.tilt_min
                && after.at_tilt_limit
            &&& s.config.tilt_max.below(t.angles[1]) ==> after.target_tilt == s.config.tilt_max
                && after.at_tilt_limit
        }),
        s.controlled(sc, t).pan_rate_cmd == s.pan_rate_cmd,
        s.controlled(sc, t).tilt_rate_cmd == s.tilt_rate_cmd,
        s.controlled(sc, t).track_target == s.track_target,
        s.controlled(sc, t).track_active == s.track_active,
        s.controlled(sc, t).geopoint_lat == s.geopoint_lat,
        s.controlled(sc, t).geopoint_lon == s.geopoint_lon,
        s.controlled(sc, t).geopoint_alt == s.geopoint_alt,
{
}

/// A command beyond a limit ends at that limit, on its own side, and is flagged.
pub proof fn targets_cut_off(
    s: GimbalSimulator,
    raw_pan: F32Bits,
    raw_tilt: F32Bits,
    wrapped_pan: F32Bits,
)
    requires
        s.limits_ok(),
        !raw_pan.nan(),
        !raw_tilt.nan(),
    ensures
        ({
            let after = s.with_target(raw_pan, raw_tilt, wrapped_pan);
            let limit = s.config.pan_limit;
            &&& s.continuous_pan() ==> after.target_pan == wrapped_pan && !after.at_pan_limit
            &&& !s.continuous_pan() && limit.below(raw_pan) ==> {
                &&& after.target_pan.rank() == limit.rank()
                &&& after.at_pan_limit
            }
            &&& !s.continuous_pan() && raw_pan.below(limit.spec_neg()) ==> {
                &&& after.target_pan.rank() == -limit.rank()
                &&& after.at_pan_limit
            }
            &&& raw_tilt.below(s.config.tilt_min) ==> after.target_tilt == s.config.tilt_min
                && after.at_tilt_limit
            &&& s.config.tilt_max.below(raw_tilt) ==> after.target_tilt == s.config.tilt_max
                && after.at_tilt_limit
        }),
        s.with_target(raw_pan, raw_tilt, wrapped_pan).pan == s.pan,
        s.with_target(raw_pan, raw_tilt, wrapped_pan).tilt == s.tilt,
        s.with_target(raw_pan, raw_tilt, wrapped_pan).mode == s.mode,
{
}

/// Zoom follows the coupling in position and in rate mode, if it changes by more than
/// the step, and stays between 0 and 1. In other modes it does not change.
pub proof fn zoom_follows_coupling(s: GimbalSimulator, sc: SensorControl, t: ControlTargets)
    requires
        !sc.ac_coupling.nan(),
    ensures
        ({
            let after = s.controlled(sc, t);
            let has_zoom = after.mode is OrionModePosition || after.mode is OrionModeRate;
            let large = (F32Bits { bits: ZOOM_STEP }).below(t.zoom_change.spec_abs());
            &&& !(has_zoom && large) ==> after.zoom_level == s.zoom_level
            &&& has_zoom && large ==> in_unit(after.zoom_level)
            &&& has_zoom && large && in_unit(sc.ac_coupling) ==> after.zoom_level
                == sc.ac_coupling
            &&& has_zoom && large && sc.ac_coupling.rank() < 0 ==> after.zoom_level.rank() == 0
            &&& has_zoom && large && (F32Bits { bits: F32_ONE }).below(sc.ac_coupling)
                ==> after.zoom_level == (F32Bits { bits: F32_ONE })
        }),
{
}

/// The sensor number is the camera. Another camera means a blackout of full length;
/// the same camera leaves a blackout as it is.
pub proof fn sensor_number_is_camera(s: GimbalSimulator, sc: SensorControl, t: ControlTargets)
    requires
        sc.sensor_id <= 127,
    ensures
        s.controlled(sc, t).camera_index == sc.sensor_id,
        s.camera_index != sc.sensor_id ==> s.controlled(sc, t).camera_switch_remaining
            == CAMERA_SWITCH_FRAMES,
        s.camera_index == sc.sensor_id ==> s.controlled(sc, t).camera_switch_remaining
            == s.camera_switch_remaining,
{
}

/// A sensor control leaves the platform, the point looked at, the jitter and the
/// clocks alone.
pub proof fn control_leaves_the_rest(s: GimbalSimulator, sc: SensorControl, t: ControlTargets)
    ensures
        ({
            let after = s.controlled(sc, t);
            &&& after.hfov == s.hfov && after.vfov == s.vfov
            &&& after.pos_lat == s.pos_lat && after.pos_lon == s.pos_lon
            &&& after.pos_alt == s.pos_alt
            &&& after.platform_roll == s.platform_roll && after.platform_pitch == s.platform_pitch
            &&& after.platform_yaw == s.platform_yaw && after.vel_ned == s.vel_ned
            &&& after.look_lat == s.look_lat && after.look_lon == s.look_lon
            &&& after.look_alt == s.look_alt && after.slant_range_m == s.slant_range_m
            &&& after.pan_jittered == s.pan_jittered && after.tilt_jittered == s.tilt_jittered
            &&& after.noise_seed == s.noise_seed && after.settled == s.settled
            &&& after.frame_ctr == s.frame_ctr && after.system_time_ms == s.system_time_ms
            &&& after.ig_mode == s.ig_mode && after.host_frame_ctr == s.host_frame_ctr
            &&& after.laser_enabled == s.laser_enabled
        }),
{
}

/// A new gimbal rests at zero, disabled and unfaulted, camera 0 at the wide end, with
/// the settings and the field of view it was given.
pub proof fn new_gimbal_rests(config: Config, hfov: F32Bits, vfov: F32Bits)
    ensures
        ({
            let s = fresh(config, hfov, vfov);
            let zero = F32Bits { bits: 0 };
            &&& s.config == config && s.hfov == hfov && s.vfov == vfov
            &&& s.mode is OrionModeDisabled && s.camera_index == 0
            &&& s.camera_switch_remaining == 0 && s.zoom_level == zero
            &&& s.pan == zero && s.tilt == zero && s.pan_rate == zero && s.tilt_rate == zero
            &&& s.target_pan == zero && s.target_tilt == zero
            &&& s.pan_rate_cmd == zero && s.tilt_rate_cmd == zero
            &&& !s.at_pan_limit && !s.at_tilt_limit && !s.settled && !s.track_active
            &&& s.pan_jittered == zero && s.tilt_jittered == zero
            &&& s.laser_enabled && s.slant_range_m == (F64Bits { bits: 0 })
            &&& s.pos_lat.rank() == 0 && s.pos_lon.rank() == 0 && s.pos_alt.rank() == 0
            &&& s.prev_pos_lat.rank() == 0 && s.prev_pos_lon.rank() == 0
            &&& s.prev_pos_alt.rank() == 0
            &&& s.platform_roll == zero && s.platform_pitch == zero && s.platform_yaw == zero
            &&& s.vel_ned[0] == zero && s.vel_ned[1] == zero && s.vel_ned[2] == zero
            &&& s.look_lat.rank() == 0 && s.look_lon.rank() == 0 && s.look_alt.rank() == 0
            &&& s.geopoint_lat.rank() == 0 && s.geopoint_lon.rank() == 0
            &&& s.geopoint_alt.rank() == 0
            &&& s.track_target[0] == zero && s.track_target[1] == zero
            &&& s.prev_track_x == zero && s.prev_track_y == zero
            &&& s.jitter_phase == zero && s.jitter_phase_2 == zero
            &&& s.pan_jitter == zero && s.tilt_jitter == zero
            &&& s.ig_mode == 0 && s.host_frame_ctr == 0
            &&& !s.faults.gps_loss && !s.faults.motor_fault && !s.faults.imu_dropout
            &&& !s.faults.thermal_warning && !s.faults.degraded_gps && !s.faults.encoder_fault
            &&& !s.faults.laser_fault
            &&& s.frame_ctr == 0 && s.system_time_ms == 0 && s.noise_seed == 0xDEAD_BEEF
        }),
{
}

/// An entity control moves the platform: each part of the pose to its own place, the
/// altitude as it was sent, and the position before it is remembered. The gimbal and
/// its commands stay.
pub proof fn platform_is_carried(s: GimbalSimulator, ec: EntityControl, pose: EntityPose)
    ensures
        ({
            let after = s.carried(ec, pose);
            &&& after.pos_lat == pose.lat_rad
            &&& after.pos_lon == pose.lon_rad
            &&& after.pos_alt == ec.alt_or_z
            &&& after.prev_pos_lat == s.pos_lat
            &&& after.prev_pos_lon == s.pos_lon
            &&& after.prev_pos_alt == s.pos_alt
            &&& after.platform_roll == pose.roll_rad
            &&& after.platform_pitch == pose.pitch_rad
            &&& after.platform_yaw == pose.yaw_rad
            &&& after.vel_ned[0] == pose.vel_ned[0]
            &&& after.vel_ned[1] == pose.vel_ned[1]
            &&& after.vel_ned[2] == pose.vel_ned[2]
            &&& after.pan == s.pan && after.tilt == s.tilt && after.mode == s.mode
            &&& after.target_pan == s.target_pan && after.target_tilt == s.target_tilt
            &&& after.config == s.config && after.faults == s.faults
        }),
{
}

/// The point looked at has its own latitude, longitude, altitude and distance. Where
/// nothing is met the last point stays, at no distance.
pub proof fn look_point_is_located(s: GimbalSimulator, hit: Option<LookPoint>)
    ensures
        hit matches Some(p) ==> {
            &&& s.located(hit).look_lat == p.lat
            &&& s.located(hit).look_lon == p.lon
            &&& s.located(hit).look_alt == p.alt
            &&& !s.faults.laser_fault ==> s.located(hit).slant_range_m == p.slant_range_m
        },
        hit is None ==> {
            &&& s.located(hit).look_lat == s.look_lat
            &&& s.located(hit).look_lon == s.look_lon
            &&& s.located(hit).look_alt == s.look_alt
            &&& s.located(hit).slant_range_m == (F64Bits { bits: 0 })
        },
{
}

/// The gimbal takes over every part of a real gimbal's report, each in its own place.
/// The reported angles count as the angles with jitter, and no jitter is added.
pub proof fn hardware_is_mirrored(
    s: GimbalSimulator,
    telem: GeolocateTelemetryCorePacket,
    hit: Option<LookPoint>,
)
    ensures
        ({
            let after = s.mirrored(telem).located(hit);
            &&& after.pan == telem.pan && after.tilt == telem.tilt
            &&& after.pan_jittered == telem.pan && after.tilt_jittered == telem.tilt
            &&& after.pan_jitter.rank() == 0 && after.tilt_jitter.rank() == 0
            &&& after.hfov == telem.hfov && after.vfov == telem.vfov
            &&& after.mode == telem.mode && after.camera_index == telem.camera_index
            &&& after.pos_lat == telem.pos_lat
            &&& after.pos_lon == telem.pos_lon
            &&& after.pos_alt == telem.pos_alt
            &&& after.vel_ned[0] == telem.vel_ned[0] && after.vel_ned[1] == telem.vel_ned[1]
            &&& after.vel_ned[2] == telem.vel_ned[2]
            &&& after.system_time_ms == telem.system_time
            &&& after.config == s.config && after.faults == s.faults
            &&& hit matches Some(p) ==> after.look_lat == p.lat && after.look_lon == p.lon
                && after.look_alt == p.alt
        }),
{
}

/// Half a turn either way is one angle, and every other angle within half a turn
/// stays as it is.
pub proof fn half_turns_are_one(wrapped: F32Bits)
    requires
        (F32Bits { bits: MAX_ANGLE }).spec_neg().at_most(wrapped),
        wrapped.at_most(F32Bits { bits: MAX_ANGLE }),
    ensures
        (F32Bits { bits: MAX_ANGLE }).spec_neg().below(half_turn(wrapped)),
        half_turn(wrapped).at_most(F32Bits { bits: MAX_ANGLE }),
        wrapped.rank() != -MAX_ANGLE ==> half_turn(wrapped) == wrapped,
        wrapped.rank() == -MAX_ANGLE ==> half_turn(wrapped).rank() == MAX_ANGLE,
{
}

/// The field of view has to be set anew exactly where zoom or camera is commanded to
/// change; where it has not, both are what they were.
pub proof fn refresh_follows_change(s: GimbalSimulator, sc: SensorControl, t: ControlTargets)
    ensures
        !s.refreshes(sc, t) ==> s.controlled(sc, t).camera_index == s.camera_index && s.controlled(
            sc,
            t,
        ).zoom_level == s.zoom_level,
        s.controlled(sc, t).camera_index != s.camera_index ==> s.refreshes(sc, t),
        s.controlled(sc, t).zoom_level != s.zoom_level ==> s.refreshes(sc, t),
        (sc.sensor_id - s.controlled(sc, t).camera_index) % 0x100 == 0,
{
}

/// A field of view is set as it is given, the horizontal one as horizontal, and nothing
/// else changes.
pub proof fn field_of_view_is_set(s: GimbalSimulator, hfov: F32Bits, vfov: F32Bits)
    ensures
        s.with_fov(hfov, vfov).hfov == hfov,
        s.with_fov(hfov, vfov).vfov == vfov,
        s.with_fov(hfov, vfov).with_fov(s.hfov, s.vfov) == s,
        s.with_fov(hfov, vfov).zoom_level == s.zoom_level,
        s.with_fov(hfov, vfov).camera_index == s.camera_index,
        s.with_fov(hfov, vfov).mode == s.mode,
{
}

/// Pan within its limits stays as it is, on either side; beyond them it becomes the
/// limit on that side. Without a stop any pan does. Tilt is the same between its own
/// limits.
pub proof fn angles_limited_on_their_side(s: GimbalSimulator, angle: F32Bits)
    requires
        s.limits_ok(),
        !angle.nan(),
    ensures
        s.continuous_pan() || angle.spec_abs().at_most(s.config.pan_limit) ==> s.pan_limited(angle)
            == angle,
        !s.continuous_pan() && s.config.pan_limit.below(angle) ==> s.pan_limited(angle).rank()
            == s.config.pan_limit.rank(),
        !s.continuous_pan() && angle.below(s.config.pan_limit.spec_neg()) ==> s.pan_limited(
            angle,
        ).rank() == -s.config.pan_limit.rank(),
        s.config.tilt_min.at_most(angle) && angle.at_most(s.config.tilt_max) ==> s.tilt_limited(
            angle,
        ) == angle,
        angle.below(s.config.tilt_min) ==> s.tilt_limited(angle) == s.config.tilt_min,
        s.config.tilt_max.below(angle) ==> s.tilt_limited(angle) == s.config.tilt_max,
{
}

/// A limit of half a turn or less is a limit, one of a whole turn or more is none, and
/// a larger limit never stops a pan that turned without one.
pub proof fn whole_turn_is_no_limit(a: GimbalSimulator, b: GimbalSimulator)
    requires
        a.config.pan_limit.at_most(b.config.pan_limit),
    ensures
        a.continuous_pan() ==> b.continuous_pan(),
        a.config.pan_limit.at_most(F32Bits { bits: MAX_ANGLE }) ==> !a.continuous_pan(),
        (F32Bits { bits: 0x40C9_0FDB }).at_most(a.config.pan_limit) ==> a.continuous_pan(),
{
}

/// Angles are commanded by position mode and by disabling, and by nothing else.
pub proof fn angles_are_for_positions(sc: SensorControl)
    ensures
        takes_angles(sc) <==> sc.sensor_state == 0 || (sc.sensor_state != 2 && sc.sensor_state != 4
            && sc.track_mode % 2 == 0),
        sc.sensor_state == 0 ==> commanded_mode(sc) is OrionModeDisabled,
{
}

} // verus!
