//! The simulated gimbal in motion: the library's decisions with the arithmetic
//! around them.

use std::f32::consts::PI;

use cigi_trillium::bits::{F32Bits, F64Bits};
use cigi_trillium::cigi::messages::{SensorControl, SensorExtendedResponse};
use cigi_trillium::config::{Config, GimbalMount, ZoomCurve};
use cigi_trillium::geo::{follows_line_of_sight, has_direction, nearest_crossing, refraction};
use cigi_trillium::orion::{GeolocateTelemetryCorePacket, OrionMode, RangeDataSrc};
use cigi_trillium::simulator::axis::{
    coordinated_rates, next_rate, plan_axis, plan_rate_change, ramp_rate, Axis, AxisPlan, Ramp,
};
use cigi_trillium::simulator::motion::{Made, Motion, TickResults};
use cigi_trillium::simulator::telemetry::TelemetryParts;
use cigi_trillium::simulator::{
    into_half_turn, select_mode, ControlTargets, GimbalSimulator, LookPoint,
    CAMERA_SWITCH_FRAMES,
};

/// 60 degrees/s.
const MAX_SLEW_RATE: f32 = std::f32::consts::FRAC_PI_3;

fn b32(x: f32) -> F32Bits {
    F32Bits::from_bits(x.to_bits())
}

fn b64(x: f64) -> F64Bits {
    F64Bits::from_bits(x.to_bits())
}

fn f32_of(x: F32Bits) -> f32 {
    f32::from_bits(x.bits)
}

fn f64_of(x: F64Bits) -> f64 {
    f64::from_bits(x.bits)
}

/// The number of a bit pattern.
trait Value {
    type Number;
    fn v(&self) -> Self::Number;
}

impl Value for F32Bits {
    type Number = f32;
    fn v(&self) -> f32 {
        f32_of(*self)
    }
}

impl Value for F64Bits {
    type Number = f64;
    fn v(&self) -> f64 {
        f64_of(*self)
    }
}

/// Semi-major axis (m).
const A: f64 = 6_378_137.0;
/// Semi-minor axis (m).
const B: f64 = 6_356_752.314_245;
/// First eccentricity squared.
const E2: f64 = 1.0 - (B * B) / (A * A);

type Vec3 = [f64; 3];
type Mat3 = [[f64; 3]; 3];

/// Where the platform is, how it is oriented and how the gimbal sits on it.
struct Pose {
    lat: f64,
    lon: f64,
    alt: f64,
    roll: f64,
    pitch: f64,
    yaw: f64,
    /// 0 for perfect stabilization, 1 for a body-mounted gimbal.
    stabilization: f64,
    mount_translation: Vec3,
    mount_rotation: Vec3,
}

/// Offset and rotation of a mount as numbers.
fn mount_parts(mount: &GimbalMount) -> (Vec3, Vec3) {
    (
        mount.translation_body_m.map(f64_of),
        mount.rotation_body_rad.map(f64_of),
    )
}

fn geodetic_to_ecef(lat: f64, lon: f64, alt: f64) -> Vec3 {
    let n = A / (1.0 - E2 * lat.sin() * lat.sin()).sqrt();
    [
        (n + alt) * lat.cos() * lon.cos(),
        (n + alt) * lat.cos() * lon.sin(),
        (n * (1.0 - E2) + alt) * lat.sin(),
    ]
}

fn ecef_to_geodetic(x: f64, y: f64, z: f64) -> Vec3 {
    let lon = y.atan2(x);
    let p = (x * x + y * y).sqrt();
    let mut lat = z.atan2(p * (1.0 - E2));
    for _ in 0..5 {
        let n = A / (1.0 - E2 * lat.sin() * lat.sin()).sqrt();
        lat = (z + E2 * n * lat.sin()).atan2(p);
    }
    let n = A / (1.0 - E2 * lat.sin() * lat.sin()).sqrt();
    let alt = if lat.cos().abs() > 1e-10 {
        p / lat.cos() - n
    } else {
        z.abs() / lat.sin().abs() - n * (1.0 - E2)
    };
    [lat, lon, alt]
}

/// North, east and down at a position, in earth-centred coordinates.
fn ned_frame(lat: f64, lon: f64) -> (Vec3, Vec3, Vec3) {
    (
        [-lat.sin() * lon.cos(), -lat.sin() * lon.sin(), lat.cos()],
        [-lon.sin(), lon.cos(), 0.0],
        [-lat.cos() * lon.cos(), -lat.cos() * lon.sin(), -lat.sin()],
    )
}

/// Rotation by roll, then pitch, then yaw.
fn rotation(roll: f64, pitch: f64, yaw: f64) -> Mat3 {
    let (sr, cr) = roll.sin_cos();
    let (sp, cp) = pitch.sin_cos();
    let (sy, cy) = yaw.sin_cos();
    [
        [cy * cp, cy * sp * sr - sy * cr, cy * sp * cr + sy * sr],
        [sy * cp, sy * sp * sr + cy * cr, sy * sp * cr - cy * sr],
        [-sp, cp * sr, cp * cr],
    ]
}

fn times(m: &Mat3, v: Vec3) -> Vec3 {
    [dot(m[0], v), dot(m[1], v), dot(m[2], v)]
}

fn transposed_times(m: &Mat3, v: Vec3) -> Vec3 {
    [
        m[0][0] * v[0] + m[1][0] * v[1] + m[2][0] * v[2],
        m[0][1] * v[0] + m[1][1] * v[1] + m[2][1] * v[2],
        m[0][2] * v[0] + m[1][2] * v[1] + m[2][2] * v[2],
    ]
}

fn dot(a: Vec3, b: Vec3) -> f64 {
    a[0] * b[0] + a[1] * b[1] + a[2] * b[2]
}

fn to_ecef(frame: &(Vec3, Vec3, Vec3), v: Vec3) -> Vec3 {
    [
        frame.0[0] * v[0] + frame.1[0] * v[1] + frame.2[0] * v[2],
        frame.0[1] * v[0] + frame.1[1] * v[1] + frame.2[1] * v[2],
        frame.0[2] * v[0] + frame.1[2] * v[1] + frame.2[2] * v[2],
    ]
}

impl Pose {
    /// From the gimbal mount to north, east and down: the part of the attitude that
    /// stabilization leaves, and the rotation of the mount.
    fn pointing(&self) -> (Mat3, Mat3) {
        let s = self.stabilization;
        let [r, p, y] = self.mount_rotation;
        (
            rotation(self.roll * s, self.pitch * s, self.yaw),
            rotation(r, p, y),
        )
    }

    /// Where the gimbal is, in earth-centred coordinates.
    fn gimbal_origin(&self) -> Vec3 {
        let frame = ned_frame(self.lat, self.lon);
        let ned = times(
            &rotation(self.roll, self.pitch, self.yaw),
            self.mount_translation,
        );
        let offset = to_ecef(&frame, ned);
        let p = geodetic_to_ecef(self.lat, self.lon, self.alt);
        [p[0] + offset[0], p[1] + offset[1], p[2] + offset[2]]
    }
}

/// Line of sight as an earth-centred unit vector.
fn los_ecef(pose: &Pose, pan: f32, tilt: f32) -> [f32; 3] {
    let (az, el) = (pan as f64, tilt as f64);
    let gimbal = [el.cos() * az.cos(), el.cos() * az.sin(), el.sin()];
    let (platform, mount) = pose.pointing();
    let ned = times(&platform, times(&mount, gimbal));
    let v = to_ecef(&ned_frame(pose.lat, pose.lon), ned);
    [v[0] as f32, v[1] as f32, v[2] as f32]
}

/// Where a ray meets the ellipsoid raised by `elevation`.
fn ray_wgs84(origin: Vec3, dir: Vec3, elevation: f64) -> Option<Vec3> {
    let [ox, oy, oz] = origin;
    let [dx, dy, dz] = dir;
    let a2 = (A + elevation) * (A + elevation);
    let b2 = (B + elevation) * (B + elevation);
    let qa = (dx * dx + dy * dy) / a2 + dz * dz / b2;
    let qb = 2.0 * ((ox * dx + oy * dy) / a2 + oz * dz / b2);
    let qc = (ox * ox + oy * oy) / a2 + oz * oz / b2 - 1.0;
    let disc = qb * qb - 4.0 * qa * qc;
    let t1 = (-qb - disc.sqrt()) / (2.0 * qa);
    let t2 = (-qb + disc.sqrt()) / (2.0 * qa);
    let t = f64_of(nearest_crossing(b64(disc), b64(t1), b64(t2))?);
    Some(ecef_to_geodetic(ox + t * dx, oy + t * dy, oz + t * dz))
}

/// Atmospheric refraction (rad) at an elevation (rad), after Bennett.
fn bennett_refraction(elev: f64) -> f64 {
    let tangent = (elev + 0.00312 / (elev + 0.089)).tan();
    f64_of(refraction(b64(tangent), b64(0.0002967 / tangent)))
}

/// The point on the ground that the gimbal looks at.
fn compute_look_point(
    pose: &Pose,
    pan: f32,
    tilt: f32,
    refraction_enabled: bool,
    terrain_elevation_m: f64,
) -> Option<Vec3> {
    let effective_tilt = if refraction_enabled {
        tilt - bennett_refraction(-(tilt as f64)) as f32
    } else {
        tilt
    };
    let dir = los_ecef(pose, pan, effective_tilt).map(|x| x as f64);
    let len = dot(dir, dir).sqrt();
    if !follows_line_of_sight(b64(pose.alt), b64(len)) {
        return None;
    }
    let unit = [dir[0] / len, dir[1] / len, dir[2] / len];
    ray_wgs84(pose.gimbal_origin(), unit, terrain_elevation_m)
}

/// Pan and tilt that point at a position.
fn inverse_geopoint(pose: &Pose, lat: f64, lon: f64, alt: f64) -> (f32, f32) {
    let origin = pose.gimbal_origin();
    let target = geodetic_to_ecef(lat, lon, alt);
    let way = [
        target[0] - origin[0],
        target[1] - origin[1],
        target[2] - origin[2],
    ];
    let len = dot(way, way).sqrt();
    if !has_direction(b64(len)) {
        return (0.0, 0.0);
    }
    let dir = [way[0] / len, way[1] / len, way[2] / len];
    let (n_hat, e_hat, d_hat) = ned_frame(pose.lat, pose.lon);
    let ned = [dot(dir, n_hat), dot(dir, e_hat), dot(dir, d_hat)];
    let (platform, mount) = pose.pointing();
    let [n, e, d] = transposed_times(&mount, transposed_times(&platform, ned));
    let horiz = (n * n + e * e).sqrt();
    (e.atan2(n) as f32, d.atan2(horiz) as f32)
}


/// An angle wrapped into (−π, π].
fn wrap_angle(a: f32) -> f32 {
    f32_of(into_half_turn(b32((a + PI).rem_euclid(2.0 * PI) - PI)))
}

/// The field of view at a place on a zoom curve, horizontal and vertical.
fn on_curve(c: &ZoomCurve) -> (f32, f32) {
    if let Some((h, v)) = c.at_end() {
        return (f32_of(h), f32_of(v));
    }
    let (hw, hn) = (f32_of(c.hfov_wide), f32_of(c.hfov_narrow));
    let (vw, vn) = (f32_of(c.vfov_wide), f32_of(c.vfov_narrow));
    let t = f32_of(c.t);
    (hw * (hn / hw).powf(t), vw * (vn / vw).powf(t))
}

/// The field of view (rad) of a camera at a zoom.
fn fov_at_zoom_for_camera(cfg: &Config, camera: i8, zoom: f32) -> (f32, f32) {
    let (h, v) = on_curve(&cfg.fov_at_zoom_for_camera(camera, b32(zoom)));
    (h.to_radians(), v.to_radians())
}

/// A gimbal with the given settings.
fn simulator(cfg: Config) -> GimbalSimulator {
    let (h, v) = fov_at_zoom_for_camera(&cfg, 0, 0.0);
    GimbalSimulator::with_config(cfg, b32(h), b32(v))
}

/// Panics, as clamping would, on limits that bound no range.
fn check_limits(sim: &GimbalSimulator) {
    let pan = f32_of(sim.config.pan_limit);
    assert!(sim.config.is_continuous_pan() || -pan <= pan, "pan limit");
    assert!(
        f32_of(sim.config.tilt_min) <= f32_of(sim.config.tilt_max),
        "tilt limits"
    );
}

/// Applies a sensor control.
fn apply_sensor_control(sim: &mut GimbalSimulator, sc: &SensorControl) {
    if let OrionMode::OrionModePosition | OrionMode::OrionModeDisabled = select_mode(sc) {
        check_limits(sim);
    }
    let (gain, level) = (f32_of(sc.gain), f32_of(sc.level));
    let max_rate = f32_of(sim.config.max_slew_rate);
    let raw_pan = (gain * 2.0 - 1.0) * PI;
    let pan = f32_of(sim.pan);
    let lat_deg = f32_of(sc.ac_coupling) as f64 * 180.0 - 90.0;
    let lon_deg = f32_of(sc.noise) as f64 * 360.0 - 180.0;
    let zoom = f32_of(sc.ac_coupling).clamp(0.0, 1.0);
    let targets = ControlTargets {
        rates: [
            b32((gain * 2.0 - 1.0) * max_rate),
            b32((level * 2.0 - 1.0) * max_rate),
        ],
        track: [b32(gain - 0.5), b32(level - 0.5)],
        geopoint_lat: b64(lat_deg.to_radians()),
        geopoint_lon: b64(lon_deg.to_radians()),
        angles: [b32(raw_pan), b32((level * 2.0 - 1.0) * PI)],
        wrapped_pan: b32(pan + wrap_angle(raw_pan - pan)),
        zoom_change: b32(zoom - f32_of(sim.zoom_level)),
    };
    if sim.apply_sensor_control(sc, &targets) {
        let (h, v) =
            fov_at_zoom_for_camera(&sim.config, sim.camera_index, f32_of(sim.zoom_level));
        sim.set_fov(b32(h), b32(v));
    }
}

/// The pose of the platform and the mount.
fn pose_of(sim: &GimbalSimulator) -> Pose {
    let (mount_translation, mount_rotation) = mount_parts(&sim.config.gimbal_mount);
    Pose {
        lat: f64_of(sim.pos_lat),
        lon: f64_of(sim.pos_lon),
        alt: f64_of(sim.pos_alt),
        roll: f32_of(sim.platform_roll) as f64,
        pitch: f32_of(sim.platform_pitch) as f64,
        yaw: f32_of(sim.platform_yaw) as f64,
        stabilization: f32_of(sim.config.stabilization_quality) as f64,
        mount_translation,
        mount_rotation,
    }
}

/// The point looked at in a direction, and its distance.
fn look_point(sim: &GimbalSimulator, pan: f32, tilt: f32) -> Option<LookPoint> {
    let pose = pose_of(sim);
    let [lat, lon, alt] = compute_look_point(
        &pose,
        pan,
        tilt,
        sim.config.refraction_enabled,
        f64_of(sim.config.terrain_elevation_m),
    )?;
    let p = geodetic_to_ecef(pose.lat, pose.lon, pose.alt);
    let l = geodetic_to_ecef(lat, lon, alt);
    let d = [l[0] - p[0], l[1] - p[1], l[2] - p[2]];
    Some(LookPoint {
        lat: b64(lat),
        lon: b64(lon),
        alt: b64(alt),
        slant_range_m: b64((d[0] * d[0] + d[1] * d[1] + d[2] * d[2]).sqrt()),
    })
}

/// One step of an axis towards its target.
fn seek(
    pos: F32Bits,
    rate: F32Bits,
    target: F32Bits,
    dt: f32,
    max_rate: F32Bits,
    max_accel: f32,
) -> (AxisPlan, Axis) {
    let (p, r) = (f32_of(pos), f32_of(rate));
    let stop_dist = (r * r) / (2.0 * max_accel + 1e-12);
    let plan = plan_axis(b32(f32_of(target) - p), b32(stop_dist));
    let changed = r + f32_of(plan_rate_change(plan, b32(max_accel * dt)));
    if let AxisPlan::Accelerate { .. } = plan {
        assert!(f32_of(max_rate) >= 0.0, "rate limit");
    }
    let rate = next_rate(plan, b32(changed), max_rate);
    let moved = p + f32_of(rate) * dt;
    (plan, Axis { pos: b32(moved), rate })
}

/// Steps of both axes towards their targets.
fn seek_both(sim: &GimbalSimulator, dt: f32, pan_rate: F32Bits, tilt_rate: F32Bits) -> Made {
    let accel = f32_of(sim.config.max_accel);
    let (pan_plan, pan) = seek(sim.pan, sim.pan_rate, sim.target_pan, dt, pan_rate, accel);
    let (tilt_plan, tilt) = seek(
        sim.tilt,
        sim.tilt_rate,
        sim.target_tilt,
        dt,
        tilt_rate,
        accel,
    );
    Made::Steps {
        pan_plan,
        pan,
        tilt_plan,
        tilt,
    }
}

/// A rate on its way to a command, and the angle it leads to.
fn ramp(pos: F32Bits, rate: F32Bits, cmd: F32Bits, max_accel: f32, dt: f32) -> Axis {
    let r = f32_of(rate);
    let rate = match ramp_rate(b32(f32_of(cmd) - r), b32(max_accel * dt)) {
        Ramp::Reach => f32_of(cmd),
        Ramp::Step(s) => r + f32_of(s),
    };
    Axis {
        pos: b32(f32_of(pos) + rate * dt),
        rate: b32(rate),
    }
}

/// Size of the tracked target as a fraction of the field of view, and confidence.
fn track_size_confidence(sim: &GimbalSimulator) -> (F32Bits, F32Bits) {
    let g = sim.track_geometry();
    let hfov = f32_of(g.hfov);
    let angular_size = match g.range_m {
        Some(range) => (f32_of(sim.config.track_target_size_m) as f64 / f64_of(range)) as f32,
        None => 0.5_f32.to_radians(),
    };
    let [x, y] = sim.track_target.map(f32_of);
    let offset = (x.hypot(y) / f32_of(g.threshold)).clamp(0.0, 1.0);
    let size_factor = (angular_size / (hfov * 0.005)).clamp(0.0, 1.0);
    let confidence = 0.95 * (1.0 - offset.powi(2)) * size_factor;
    (b32(angular_size / hfov), b32(confidence))
}

/// Where the track controller takes the axes.
fn track(sim: &GimbalSimulator, dt: f32) -> Made {
    let [x, y] = sim.track_target.map(f32_of);
    let (kp, kd) = (
        f32_of(sim.config.track_p_gain),
        f32_of(sim.config.track_d_gain),
    );
    let dx = (x - f32_of(sim.prev_track_x)) / dt;
    let dy = (y - f32_of(sim.prev_track_y)) / dt;
    let pr = (kp * x + kd * dx) * f32_of(sim.hfov);
    let tr = (kp * y + kd * dy) * f32_of(sim.vfov);
    let (_, confidence) = track_size_confidence(sim);
    let pan = Axis {
        pos: b32(f32_of(sim.pan) + pr * dt),
        rate: b32(pr),
    };
    let tilt = Axis {
        pos: b32(f32_of(sim.tilt) + tr * dt),
        rate: b32(tr),
    };
    Made::OnTrack {
        pan,
        tilt,
        confidence,
    }
}

/// Aims at the commanded point on the earth.
fn aim_at_geopoint(sim: &mut GimbalSimulator, dt: f32, max_rate: F32Bits) -> Made {
    check_limits(sim);
    let (tp, tt) = inverse_geopoint(
        &pose_of(sim),
        f64_of(sim.geopoint_lat),
        f64_of(sim.geopoint_lon),
        f64_of(sim.geopoint_alt),
    );
    let pan = f32_of(sim.pan);
    sim.set_target(b32(tp), b32(tt), b32(pan + wrap_angle(tp - pan)));
    let pan_err = (f32_of(sim.target_pan) - pan).abs();
    let tilt_err = (f32_of(sim.target_tilt) - f32_of(sim.tilt)).abs();
    let rate = f32_of(max_rate);
    let max_time = (pan_err / rate).max(tilt_err / rate);
    let (pan_rate, tilt_rate) = coordinated_rates(
        b32(pan_err),
        b32(tilt_err),
        b32(pan_err / max_time),
        b32(tilt_err / max_time),
        max_rate,
    );
    seek_both(sim, dt, pan_rate, tilt_rate)
}

/// The arithmetic at the end of a tick.
fn results_of(sim: &GimbalSimulator, dt_secs: f64) -> TickResults {
    let dt = dt_secs as f32;
    let (pan_rate, tilt_rate) = (f32_of(sim.pan_rate), f32_of(sim.tilt_rate));
    let coupling = f32_of(sim.config.gyro_coupling_factor) * pan_rate * tilt_rate * dt;
    let (pan, tilt) = match sim.coupling_terms(b32(coupling)) {
        Some((p, t)) => (f32_of(sim.pan) + f32_of(p), f32_of(sim.tilt) + f32_of(t)),
        None => (f32_of(sim.pan), f32_of(sim.tilt)),
    };

    let turn = |phase: f32| (phase * 2.0 * PI).sin();
    let phase = (f32_of(sim.jitter_phase) + f32_of(sim.config.jitter_freq) * dt) % 1.0;
    let phase_2 = (f32_of(sim.jitter_phase_2) + f32_of(sim.config.jitter_freq_2) * dt) % 1.0;
    let slew = pan_rate.hypot(tilt_rate);
    let amp =
        f32_of(sim.config.jitter_amplitude) * (1.0 + slew / f32_of(sim.config.max_slew_rate));
    let amp_2 = f32_of(sim.config.jitter_amplitude_2);
    let floor = f32_of(sim.config.noise_floor);
    let (n1, n2) = sim.jitter_noise();
    let pan_jitter = amp * turn(phase) + amp_2 * turn(phase_2) + f32_of(n1) * floor;
    let tilt_jitter = amp * turn(phase + 0.25) + amp_2 * turn(phase_2 + 0.25) + f32_of(n2) * floor;
    let (pan_jittered, tilt_jittered) = (pan + pan_jitter, tilt + tilt_jitter);
    TickResults {
        pan_coupled: b32(pan),
        tilt_coupled: b32(tilt),
        pan_err: b32(pan - f32_of(sim.target_pan)),
        tilt_err: b32(tilt - f32_of(sim.target_tilt)),
        jitter_phase: b32(phase),
        jitter_phase_2: b32(phase_2),
        pan_jitter: b32(pan_jitter),
        tilt_jitter: b32(tilt_jitter),
        pan_jittered: b32(pan_jittered),
        tilt_jittered: b32(tilt_jittered),
        hit: look_point(sim, pan_jittered, tilt_jittered),
        elapsed_ms: (dt_secs * 1000.0) as u32,
    }
}

/// Moves the gimbal on by `dt_secs`.
fn tick(sim: &mut GimbalSimulator, dt_secs: f64) {
    let dt = dt_secs as f32;
    let uptime = b32(f32_of(sim.faults.uptime_secs) + dt);
    let max_slew = f32_of(sim.config.max_slew_rate);
    if sim.mode == OrionMode::OrionModeRate && !sim.faults.motor_fault {
        assert!(max_slew >= 0.0, "rate limit");
    }
    let made = match sim.begin_tick(uptime, b32(max_slew * 0.5)) {
        Motion::Seek { max_rate } => seek_both(sim, dt, max_rate, max_rate),
        Motion::Rate { pan_cmd, tilt_cmd } => {
            check_limits(sim);
            let accel = f32_of(sim.config.max_accel);
            Made::AtRate {
                pan: ramp(sim.pan, sim.pan_rate, pan_cmd, accel, dt),
                tilt: ramp(sim.tilt, sim.tilt_rate, tilt_cmd, accel, dt),
            }
        }
        Motion::Geopoint { max_rate } => aim_at_geopoint(sim, dt, max_rate),
        Motion::Track => {
            check_limits(sim);
            track(sim, dt)
        }
        Motion::Hold => Made::Nothing,
    };
    assert!(sim.is_asked_for(&made), "motion");
    sim.make_motion(&made);
    let results = results_of(sim, dt_secs);
    sim.finish_tick(&results);
}

/// Takes over the telemetry of a real gimbal.
fn apply_hardware_telemetry(sim: &mut GimbalSimulator, telem: &GeolocateTelemetryCorePacket) {
    let mut there = sim.clone();
    there.pos_lat = telem.pos_lat;
    there.pos_lon = telem.pos_lon;
    there.pos_alt = telem.pos_alt;
    let hit = look_point(&there, f32_of(telem.pan), f32_of(telem.tilt));
    sim.apply_hardware_telemetry(telem, hit);
}

/// Orientation (w, x, y, z) of the gimbal.
fn gimbal_quat(pan: f32, tilt: f32) -> [f32; 4] {
    let (sp, cp) = (pan / 2.0).sin_cos();
    let (st, ct) = (tilt / 2.0).sin_cos();
    [cp * ct, sp * st, -cp * st, sp * ct]
}

/// Orientation (w, x, y, z) of the platform.
fn platform_quat(roll: f32, pitch: f32, yaw: f32) -> [f32; 4] {
    let (sr, cr) = (roll / 2.0).sin_cos();
    let (sp, cp) = (pitch / 2.0).sin_cos();
    let (sy, cy) = (yaw / 2.0).sin_cos();
    [
        cr * cp * cy + sr * sp * sy,
        sr * cp * cy - cr * sp * sy,
        cr * sp * cy + sr * cp * sy,
        cr * cp * sy - sr * sp * cy,
    ]
}

/// The computed parts of the telemetry.
fn telemetry_parts(sim: &GimbalSimulator) -> TelemetryParts {
    let noise = sim.position_noise();
    let std = f64_of(sim.faults.gps_noise_std);
    let noisy = |pos: f64, n: F32Bits| b64(pos + f32_of(n) as f64 * std);
    let (pan, tilt) = (f32_of(sim.pan), f32_of(sim.tilt));
    let (track_size, track_confidence) = track_size_confidence(sim);
    TelemetryParts {
        noisy_pos: [
            noisy(f64_of(sim.pos_lat), noise[0]),
            noisy(f64_of(sim.pos_lon), noise[1]),
            noisy(f64_of(sim.pos_alt), noise[2]),
        ],
        wrapped_pan: b32(wrap_angle(f32_of(sim.pan_jittered))),
        wrapped_frozen_pan: b32(wrap_angle(f32_of(sim.faults.frozen_pan))),
        gimbal_quat: gimbal_quat(pan, tilt).map(b32),
        platform_quat: platform_quat(
            f32_of(sim.platform_roll),
            f32_of(sim.platform_pitch),
            f32_of(sim.platform_yaw),
        )
        .map(b32),
        los_ecef: los_ecef(&pose_of(sim), pan, tilt).map(b32),
        track_size,
        track_confidence,
    }
}

/// The telemetry of the gimbal.
fn telemetry(sim: &GimbalSimulator) -> GeolocateTelemetryCorePacket {
    sim.to_telemetry(&telemetry_parts(sim))
}

/// The response of the gimbal to a CIGI host.
fn sensor_response(sim: &GimbalSimulator) -> SensorExtendedResponse {
    let hfov_deg = f32_of(sim.hfov).to_degrees().max(1e-6);
    let gate = f32_of(sim.config.track_gate_size_deg) / hfov_deg * 640.0;
    sim.to_sensor_extended_response(
        &telemetry_parts(sim),
        b64(f64_of(sim.look_lat).to_degrees()),
        b64(f64_of(sim.look_lon).to_degrees()),
        gate as u16,
    )
}


#[test]
fn slew_toward_target() {
    let mut sim = GimbalSimulator::default();
    sim.mode = OrionMode::OrionModePosition;
    sim.target_pan = b32(1.0);
    sim.target_tilt = b32(0.5);

    tick(&mut sim, 1.0);

    assert!(sim.pan.v() > 0.0);
    assert!(sim.pan.v() <= MAX_SLEW_RATE + 1e-5);
    assert!(sim.pan.v() <= 1.0 + 1e-5);

    // Tick until convergence
    for _ in 0..100 {
        tick(&mut sim, 0.1);
    }
    assert!((sim.pan.v() - 1.0).abs() < 1e-4, "pan={}", sim.pan.v());
    assert!((sim.tilt.v() - 0.5).abs() < 1e-4, "tilt={}", sim.tilt.v());
}

#[test]
fn apply_sensor_control_sets_mode() {
    let mut sim = GimbalSimulator::default();
    let sc = SensorControl {
        sensor_state: 1,
        gain: b32(0.75), // → pan target = 0.5π
        level: b32(0.5), // → tilt target = 0.0
        ..Default::default()
    };
    apply_sensor_control(&mut sim, &sc);
    assert!(matches!(sim.mode, OrionMode::OrionModePosition));
    assert!(
        (sim.target_pan.v() - 0.5 * std::f32::consts::PI).abs() < 1e-4,
        "target_pan={}",
        sim.target_pan.v()
    );
    assert!(sim.target_tilt.v().abs() < 1e-4);
}

#[test]
fn sensor_response_end_to_end() {
    let mut sim = GimbalSimulator::default();
    let sc = SensorControl {
        sensor_state: 1,
        gain: b32(0.75),
        level: b32(0.5),
        ..Default::default()
    };
    apply_sensor_control(&mut sim, &sc);
    for _ in 0..100 {
        tick(&mut sim, 0.1);
    }
    // Pan target was 0.5π rad ≈ 90°; tilt target was 0 rad. In position mode
    // the image gate is bore-sighted; look at the gimbal angles directly.
    assert!((sim.pan.v() - 0.5 * std::f32::consts::PI).abs() < 0.05, "sim.pan.v()={}", sim.pan.v());
    assert!(sim.tilt.v().abs() < 0.05, "sim.tilt.v()={}", sim.tilt.v());
    let sr = sensor_response(&sim);
    // Per CIGI v3.3, gate_x/y_pos are image-plane centroids, not pan/tilt.
    // Bore-sighted (0.0) outside track mode.
    assert_eq!(sr.gate_x_pos.v(), 0.0);
    assert_eq!(sr.gate_y_pos.v(), 0.0);
}

#[test]
fn angle_limits_enforced() {
    let mut sim = GimbalSimulator::default();
    let sc = SensorControl {
        sensor_state: 1,
        gain: b32(1.0),  // → raw pan = +π ≈ 180°, exceeds ±170° limit
        level: b32(0.0), // → raw tilt = −π ≈ −180°, exceeds −110° limit
        ..Default::default()
    };
    apply_sensor_control(&mut sim, &sc);
    assert!(sim.at_pan_limit, "should be at pan limit");
    assert!(sim.at_tilt_limit, "should be at tilt limit");
    let cfg = Config::default();
    assert!(
        sim.target_pan.v() <= cfg.pan_limit.v() + 1e-5,
        "pan clamped: {}",
        sim.target_pan.v()
    );
    assert!(
        sim.target_tilt.v() >= cfg.tilt_min.v() - 1e-5,
        "tilt clamped: {}",
        sim.target_tilt.v()
    );
}

#[test]
fn rate_mode_integrates() {
    let mut sim = GimbalSimulator::default();
    let sc = SensorControl {
        sensor_state: 1,
        track_mode: 1, // → rate mode
        gain: b32(0.75),    // → pan_rate_cmd = +0.25 * max_slew_rate
        level: b32(0.5),    // → tilt_rate_cmd = 0
        ..Default::default()
    };
    apply_sensor_control(&mut sim, &sc);
    assert!(matches!(sim.mode, OrionMode::OrionModeRate));
    let rate = sim.pan_rate_cmd.v();
    assert!(rate > 0.0, "pan_rate_cmd should be positive");
    tick(&mut sim, 1.0);
    assert!(
        (sim.pan.v() - rate).abs() < 1e-4,
        "pan should have integrated to rate*dt: {}",
        sim.pan.v()
    );
}

#[test]
fn rate_mode_accel_limited() {
    // With a small dt, the rate should ramp toward the commanded rate
    // rather than jumping to it instantly.
    let mut sim = GimbalSimulator::default();
    let sc = SensorControl {
        sensor_state: 1,
        track_mode: 1, // → rate mode
        gain: b32(1.0),     // → pan_rate_cmd = +max_slew_rate (~1.047 rad/s)
        level: b32(0.5),    // → tilt_rate_cmd = 0
        ..Default::default()
    };
    apply_sensor_control(&mut sim, &sc);
    assert!(matches!(sim.mode, OrionMode::OrionModeRate));

    let commanded = sim.pan_rate_cmd.v();
    assert!(commanded > 0.0);

    // One tick at 50 Hz (0.02 s). max_accel = 300 deg/s^2 = 5.236 rad/s^2.
    // After one tick: rate = max_accel * dt = 5.236 * 0.02 = 0.1047 rad/s.
    // Commanded rate = max_slew_rate = 1.047 rad/s.
    // So the rate should be well below the commanded rate after one tick.
    tick(&mut sim, 0.02);
    let rate_after_one = sim.pan_rate.v();
    assert!(
        rate_after_one < commanded,
        "rate ({}) should be less than commanded ({}) after 1 tick",
        rate_after_one,
        commanded
    );
    assert!(
        rate_after_one > 0.0,
        "rate should be positive and ramping up"
    );

    // After enough ticks, the rate should reach the commanded value.
    for _ in 0..500 {
        tick(&mut sim, 0.02);
    }
    assert!(
        (sim.pan_rate.v() - commanded).abs() < 1e-4,
        "rate ({}) should have converged to commanded ({})",
        sim.pan_rate.v(),
        commanded
    );
}

#[test]
fn camera_switch_blackout() {
    let mut sim = GimbalSimulator::default();
    // Command camera 1
    let sc = SensorControl {
        sensor_state: 1,
        sensor_id: 1,
        ..Default::default()
    };
    apply_sensor_control(&mut sim, &sc);
    assert_eq!(sim.camera_index, 1);
    assert!(sim.camera_switch_remaining > 0, "should be in blackout");
    // Entity position should be zeroed during blackout
    let resp = sensor_response(&sim);
    assert_eq!(resp.entity_lat.v(), 0.0);
    // After the blackout expires the switch resolves
    for _ in 0..CAMERA_SWITCH_FRAMES {
        tick(&mut sim, 0.02);
    }
    assert_eq!(sim.camera_switch_remaining, 0);
}

#[test]
fn accel_profile_smooth() {
    // Verify that pan velocity increases gradually (not instantaneously).
    let mut sim = GimbalSimulator::default();
    sim.mode = OrionMode::OrionModePosition;
    sim.target_pan = b32(1.0);

    // After a single small dt, rate should be small, not yet at max.
    tick(&mut sim, 0.001);
    let rate_after_1ms = sim.pan_rate.v();
    assert!(
        rate_after_1ms < MAX_SLEW_RATE,
        "rate_after_1ms={} should be less than max",
        rate_after_1ms
    );
    assert!(rate_after_1ms > 0.0, "rate should be positive");
}

#[test]
fn gimbal_quat_unit_length() {
    let q = gimbal_quat(0.5, 0.3);
    let len = (q[0] * q[0] + q[1] * q[1] + q[2] * q[2] + q[3] * q[3]).sqrt();
    assert!((len - 1.0).abs() < 1e-6, "quaternion not unit: len={}", len);
}

#[test]
fn platform_quat_unit_length() {
    let q = platform_quat(0.1, 0.2, 1.5);
    let len = (q[0] * q[0] + q[1] * q[1] + q[2] * q[2] + q[3] * q[3]).sqrt();
    assert!((len - 1.0).abs() < 1e-6, "quaternion not unit: len={}", len);
}

// ── Geopoint mode ─────────────────────────────────────────────────────

#[test]
fn geopoint_mode_slews_toward_target() {
    let mut sim = GimbalSimulator::default();
    sim.mode = OrionMode::OrionModeGeopoint;
    // Platform at 35°N looking south at a target at 30°N (same longitude).
    sim.pos_lat = b64(35.0_f64.to_radians());
    sim.pos_lon = b64(0.0);
    sim.pos_alt = b64(1000.0);
    sim.geopoint_lat = b64(30.0_f64.to_radians());
    sim.geopoint_lon = b64(0.0);
    sim.geopoint_alt = b64(0.0);

    tick(&mut sim, 0.5);

    // Tilt should be positive (depression, + down convention) to reach a ground target.
    assert!(sim.tilt.v() > 0.0, "tilt should be positive (down), got {}", sim.tilt.v());
}

#[test]
fn geopoint_nonzero_altitude_changes_tilt() {
    // With a higher target altitude, the required tilt (depression) should be less
    // because the target is closer in elevation to the platform.
    let mut sim_low = GimbalSimulator::default();
    sim_low.mode = OrionMode::OrionModeGeopoint;
    sim_low.pos_lat = b64(35.0_f64.to_radians());
    sim_low.pos_lon = b64(0.0);
    sim_low.pos_alt = b64(1000.0);
    sim_low.geopoint_lat = b64(30.0_f64.to_radians());
    sim_low.geopoint_lon = b64(0.0);
    sim_low.geopoint_alt = b64(0.0);

    let mut sim_high = GimbalSimulator::default();
    sim_high.mode = OrionMode::OrionModeGeopoint;
    sim_high.pos_lat = b64(35.0_f64.to_radians());
    sim_high.pos_lon = b64(0.0);
    sim_high.pos_alt = b64(1000.0);
    sim_high.geopoint_lat = b64(30.0_f64.to_radians());
    sim_high.geopoint_lon = b64(0.0);
    sim_high.geopoint_alt = b64(500.0); // target at 500m elevation

    // Run enough ticks for the targets to converge.
    for _ in 0..100 {
        tick(&mut sim_low, 0.02);
        tick(&mut sim_high, 0.02);
    }

    // Higher target altitude → less tilt depression (smaller tilt value).
    assert!(
        sim_high.tilt.v() < sim_low.tilt.v(),
        "higher target alt should require less tilt depression: high={} vs low={}",
        sim_high.tilt.v(), sim_low.tilt.v()
    );
}

#[test]
fn geopoint_config_alt_used_as_default() {
    // Verify that Config::geopoint_alt_m is applied when entering geopoint mode.
    let mut cfg = Config::default();
    cfg.geopoint_alt_m = b64(250.0);
    cfg.platform_lat = b64(35.0_f64.to_radians());
    cfg.platform_lon = b64(0.0);
    cfg.platform_alt = b64(1000.0);
    let mut sim = simulator(cfg);
    sim.mode = OrionMode::OrionModeGeopoint;
    // Simulate receiving a SensorControl that sets geopoint mode.
    let sc = SensorControl {
        view_id: 0,
        sensor_id: 0,
        sensor_state: 4, // Geopoint mode
        polarity: false,
        line_of_sight_enable: false,
        track_mode: 0,
        response_type: false,
        auto_gain: false,
        track_polarity: false,
        gain: b32(0.0),
        level: b32(0.0),
        ac_coupling: b32(0.5),  // lat fraction → 0° lat
        noise: b32(0.5),       // lon fraction → 0° lon
    };
    apply_sensor_control(&mut sim, &sc);
    assert!(
        (sim.geopoint_alt.v() - 250.0).abs() < 1e-6,
        "geopoint_alt should be set from config: got {}",
        sim.geopoint_alt.v()
    );
}

// ── Track mode ────────────────────────────────────────────────────────

#[test]
fn track_mode_proportional_controller() {
    let mut sim = GimbalSimulator::default();
    sim.mode = OrionMode::OrionModeTrack;
    sim.track_active = true;
    // Target offset: 0.2 to the right (positive pan offset)
    sim.track_target = [0.2, 0.0].map(b32);

    let pan_before = sim.pan.v();
    tick(&mut sim, 0.02);
    assert!(sim.pan.v() > pan_before, "pan should increase for rightward offset");
}

#[test]
fn track_mode_loss_at_fov_edge() {
    let mut sim = GimbalSimulator::default();
    sim.mode = OrionMode::OrionModeTrack;
    sim.track_active = true;
    // Target beyond 0.45 threshold → track loss
    sim.track_target = [0.46, 0.0].map(b32);

    tick(&mut sim, 0.02);

    assert!(!sim.track_active, "track should be lost when target exceeds threshold");
}

#[test]
fn track_mode_stays_active_below_threshold() {
    let mut sim = GimbalSimulator::default();
    sim.mode = OrionMode::OrionModeTrack;
    sim.track_active = true;
    // Offset well below both the 0.45 FOV-edge threshold and the
    // 0.3 confidence floor (dynamic confidence model).
    sim.track_target = [0.2, 0.0].map(b32);

    tick(&mut sim, 0.02);

    assert!(sim.track_active, "track should remain active below threshold");
}

#[test]
fn track_mode_pd_differs_from_pure_p() {
    // With a changing track offset, the derivative term should produce
    // a different rate than pure proportional would.
    let mut cfg = Config::default();
    cfg.track_p_gain = b32(3.0);
    cfg.track_d_gain = b32(0.5);
    let mut sim_pd = simulator(cfg.clone());
    sim_pd.mode = OrionMode::OrionModeTrack;
    sim_pd.track_active = true;

    // First tick: set initial offset.
    sim_pd.track_target = [0.1, 0.0].map(b32);
    tick(&mut sim_pd, 0.02);
    let _pan_after_first = sim_pd.pan.v();

    // Second tick: offset increases → derivative should add to rate.
    sim_pd.track_target = [0.2, 0.0].map(b32);
    tick(&mut sim_pd, 0.02);
    let pan_pd = sim_pd.pan.v();

    // Compare with pure-P (K_D = 0).
    cfg.track_d_gain = b32(0.0);
    let mut sim_p = simulator(cfg);
    sim_p.mode = OrionMode::OrionModeTrack;
    sim_p.track_active = true;

    sim_p.track_target = [0.1, 0.0].map(b32);
    tick(&mut sim_p, 0.02);
    sim_p.track_target = [0.2, 0.0].map(b32);
    tick(&mut sim_p, 0.02);
    let pan_p = sim_p.pan.v();

    // PD should move further than pure-P when offset is increasing.
    assert!(
        (pan_pd - pan_p).abs() > 1e-6,
        "PD controller should produce different result from pure-P: pd={}, p={}",
        pan_pd,
        pan_p
    );
    assert!(
        pan_pd > pan_p,
        "PD should move further when offset is increasing: pd={}, p={}",
        pan_pd,
        pan_p
    );
}

#[test]
fn track_mode_configurable_loss_threshold() {
    // With a higher threshold, an offset of 0.3 should NOT cause track
    // loss (0.3 < 0.5 threshold AND dynamic confidence stays above 0.3).
    let mut cfg = Config::default();
    cfg.track_loss_threshold = b32(0.5);
    let mut sim = simulator(cfg);
    sim.mode = OrionMode::OrionModeTrack;
    sim.track_active = true;
    sim.track_target = [0.3, 0.0].map(b32);

    tick(&mut sim, 0.02);
    assert!(sim.track_active, "track should stay active with higher threshold");

    // With a lower threshold, an offset of 0.3 exceeds it → track loss.
    let mut cfg2 = Config::default();
    cfg2.track_loss_threshold = b32(0.25);
    let mut sim2 = simulator(cfg2);
    sim2.mode = OrionMode::OrionModeTrack;
    sim2.track_active = true;
    sim2.track_target = [0.3, 0.0].map(b32);

    tick(&mut sim2, 0.02);
    assert!(!sim2.track_active, "track should be lost with lower threshold");
}

// ── Vibration ─────────────────────────────────────────────────────────

#[test]
fn vibration_nonzero_after_tick() {
    let mut sim = GimbalSimulator::default();
    tick(&mut sim, 0.02);
    // At least one of pan_jitter / tilt_jitter should be nonzero
    assert!(
        sim.pan_jitter.v() != 0.0 || sim.tilt_jitter.v() != 0.0,
        "expected nonzero jitter"
    );
}

#[test]
fn vibration_amplitude_scales_with_slew_rate() {
    // Higher slew rate → higher jitter amplitude.
    let mut sim_still = GimbalSimulator::default();
    sim_still.noise_seed = 0xDEAD_BEEF;
    tick(&mut sim_still, 0.02);
    let still_jitter = sim_still.pan_jitter.v().abs();

    let mut sim_fast = GimbalSimulator::default();
    sim_fast.noise_seed = 0xDEAD_BEEF;
    sim_fast.mode = OrionMode::OrionModeRate;
    sim_fast.pan_rate_cmd = sim_fast.config.max_slew_rate;
    tick(&mut sim_fast, 0.02);
    let fast_jitter = sim_fast.pan_jitter.v().abs();

    assert!(
        fast_jitter >= still_jitter,
        "fast jitter ({fast_jitter}) should be >= still jitter ({still_jitter})"
    );
}

// ── Motor fault ───────────────────────────────────────────────────────

#[test]
fn motor_fault_stops_motion() {
    let mut sim = GimbalSimulator::default();
    sim.mode = OrionMode::OrionModePosition;
    sim.target_pan = b32(1.0);
    sim.faults.inject_motor_fault();
    for _ in 0..10 {
        tick(&mut sim, 0.02);
    }
    assert_eq!(sim.pan.v(), 0.0, "motor fault: pan should not move");
}

// ── GPS loss ──────────────────────────────────────────────────────────

#[test]
fn gps_loss_zeroes_position_in_telemetry() {
    let mut sim = GimbalSimulator::default();
    // Give the sim a non-zero position
    sim.pos_lat = b64(0.5);
    sim.pos_lon = b64(0.3);
    sim.pos_alt = b64(200.0);
    sim.faults.inject_gps_loss();
    let telem = sensor_response(&sim);
    assert_eq!(telem.entity_lat.v(), 0.0, "GPS loss: entity_lat should be 0");
    assert_eq!(telem.entity_lon.v(), 0.0, "GPS loss: entity_lon should be 0");
    assert_eq!(telem.entity_alt.v(), 0.0, "GPS loss: entity_alt should be 0");
}

#[test]
fn gps_loss_zeroes_look_point_in_steady_state() {
    // Once `tick()` has populated `look_lat/lon/alt` with a real ray-cast
    // hit, injecting GPS loss must still zero `entity_*` in the SER —
    // otherwise the look-point leaks the true platform position.
    let mut cfg = Config::default();
    cfg.jitter_amplitude = b32(0.0);
    cfg.noise_floor = b32(0.0);
    let mut sim = simulator(cfg);
    sim.pos_lat = b64(0.5);
    sim.pos_lon = b64(-1.5);
    sim.pos_alt = b64(1000.0);
    sim.mode = OrionMode::OrionModePosition;
    sim.target_tilt = b32(0.8); // look down so the LOS hits the ground

    for _ in 0..30 {
        tick(&mut sim, 0.02);
    }
    // Sanity check: clean SER reports a non-zero look-point.
    let clean = sensor_response(&sim);
    assert!(
        clean.entity_lat.v() != 0.0 || clean.entity_lon.v() != 0.0 || clean.entity_alt.v() != 0.0,
        "look-point should be populated before GPS loss"
    );

    sim.faults.inject_gps_loss();
    let faulted = sensor_response(&sim);
    assert_eq!(faulted.entity_lat.v(), 0.0);
    assert_eq!(faulted.entity_lon.v(), 0.0);
    assert_eq!(faulted.entity_alt.v(), 0.0);
}

// ── apply_hardware_telemetry refresh ─────────────────────────────────

#[test]
fn apply_hardware_telemetry_refreshes_look_point() {
    // Without the post-apply recompute, telemetry assembled before the
    // next `tick()` would carry the previous simulator's look-point.
    let mut sim = GimbalSimulator::default();
    sim.pos_lat = b64(0.5);
    sim.pos_lon = b64(-1.5);
    sim.pos_alt = b64(1000.0);
    sim.mode = OrionMode::OrionModePosition;
    sim.target_tilt = b32(0.8);
    for _ in 0..30 {
        tick(&mut sim, 0.02);
    }
    let prev_look = (sim.look_lat.v(), sim.look_lon.v(), sim.look_alt.v());

    // Build a telemetry packet that points the gimbal at a different
    // pan/tilt and apply it. Without the refresh, look_* would be stale.
    let mut hw = telemetry(&sim);
    hw.pan = b32(0.5); // change yaw enough to move the look-point
    hw.tilt = b32(0.6);
    apply_hardware_telemetry(&mut sim, &hw);

    let new_look = (sim.look_lat.v(), sim.look_lon.v(), sim.look_alt.v());
    assert!(
        (new_look.0 - prev_look.0).abs() > 1e-6
            || (new_look.1 - prev_look.1).abs() > 1e-6,
        "look-point not refreshed after apply_hardware_telemetry: \
         prev={prev_look:?} new={new_look:?}"
    );
}

// ── Camera switch preserves zoom ─────────────────────────────────────

#[test]
fn camera_switch_preserves_zoom() {
    // A camera switch coincident with the same zoom level (Position mode)
    // must yield FOV scaled to the new camera's narrow end, not its wide
    // end — i.e. `update_camera_fov` honours the in-flight `zoom_level`
    // that `apply_zoom` has just set.
    let mut sim = GimbalSimulator::default();
    // Start on cam 0 at wide.
    sim.camera_index = 0;
    sim.zoom_level = b32(0.0);

    // Switch to cam 2 (IR) at full narrow zoom in a single command.
    let sc = SensorControl {
        sensor_state: 1, // Position
        sensor_id: 2,
        gain: b32(0.5),
        level: b32(0.5),
        ac_coupling: b32(1.0), // narrow zoom
        ..Default::default()
    };
    apply_sensor_control(&mut sim, &sc);

    let (expected_h, expected_v) =
        fov_at_zoom_for_camera(&sim.config, 2, 1.0);
    assert!(
        (sim.hfov.v() - expected_h).abs() < 1e-6,
        "hfov after switch={} expected (cam2 narrow)={}",
        sim.hfov.v(),
        expected_h
    );
    assert!(
        (sim.vfov.v() - expected_v).abs() < 1e-6,
        "vfov after switch={} expected={}",
        sim.vfov.v(),
        expected_v
    );
    // It must not have snapped back to the wide end of camera 2.
    let (cam2_wide_h, _) = fov_at_zoom_for_camera(&sim.config, 2, 0.0);
    assert!(
        (sim.hfov.v() - cam2_wide_h).abs() > 1e-3,
        "hfov={} unexpectedly matches cam2 wide ({}); zoom was lost",
        sim.hfov.v(),
        cam2_wide_h
    );
}

// ── Continuous pan shortest path ──────────────────────────────────────

#[test]
fn continuous_pan_shortest_path() {
    let mut cfg = Config::default();
    cfg.pan_limit = b32(std::f32::consts::TAU); // ≥ TAU-0.001 → is_continuous_pan() == true
    let mut sim = simulator(cfg);
    sim.pan = b32(PI); // currently at +π

    // Commanded to -3.0 rad. The naive target would be -3.0, but shortest
    // path from +π is to go to -3.0 + 2π ≈ +3.28 (just past +π going CCW is wrong;
    // actually wrap_angle(-3.0 - π) is in (-π, π]).
    let sc = SensorControl {
        sensor_state: 1,
        // Encode -3.0 rad as gain: g = (target/π + 1) * 0.5 = (-3/π + 1)*0.5
        gain: b32(((-3.0_f32 / PI) + 1.0) * 0.5),
        level: b32(0.5),
        ..Default::default()
    };
    apply_sensor_control(&mut sim, &sc);

    // target_pan should be pan + wrap(raw - pan) = π + wrap(-3 - π)
    let raw = -3.0_f32;
    let delta = wrap_angle(raw - sim.pan.v()); // needs to be in (-π, π]
    let expected = PI + delta;
    assert!(
        (sim.target_pan.v() - expected).abs() < 0.01,
        "target_pan={} expected≈{}",
        sim.target_pan.v(),
        expected
    );
}

#[test]
fn jitter_affects_look_point() {
    // Set up two simulators at altitude with a down-looking tilt so the
    // LOS hits the ground.  One has high jitter amplitude; the other zero.
    let mut cfg_jitter = Config::default();
    cfg_jitter.jitter_amplitude = b32(0.05); // ~2.9 degrees — very noticeable
    cfg_jitter.noise_floor = b32(0.02);

    let mut cfg_clean = Config::default();
    cfg_clean.jitter_amplitude = b32(0.0);
    cfg_clean.noise_floor = b32(0.0);

    let mut sim_jitter = simulator(cfg_jitter);
    let mut sim_clean = simulator(cfg_clean);

    // Place both at 1 km altitude, looking straight down.
    for s in [&mut sim_jitter, &mut sim_clean] {
        s.pos_lat = b64(0.5_f64); // ~28.6 deg N
        s.pos_lon = b64(-1.5_f64);
        s.pos_alt = b64(1000.0);
        s.mode = OrionMode::OrionModePosition;
        s.target_pan = b32(0.3);
        s.target_tilt = b32(0.8); // ~46 deg down
    }

    // Run several ticks so the look-point converges.
    for _ in 0..50 {
        tick(&mut sim_jitter, 0.02);
        tick(&mut sim_clean, 0.02);
    }

    // The jitter-perturbed simulator should have a different look-point.
    let dlat = (sim_jitter.look_lat.v() - sim_clean.look_lat.v()).abs();
    let dlon = (sim_jitter.look_lon.v() - sim_clean.look_lon.v()).abs();
    assert!(
        dlat > 1e-9 || dlon > 1e-9,
        "look-point should differ with jitter: dlat={dlat}, dlon={dlon}"
    );

    // Also verify the jittered fields are populated.
    assert!(
        (sim_jitter.pan_jittered.v() - sim_jitter.pan.v()).abs() > 1e-6,
        "pan_jittered should differ from clean pan"
    );
    // Clean sim should have zero jitter offset.
    assert!(
        (sim_clean.pan_jittered.v() - sim_clean.pan.v()).abs() < 1e-9,
        "zero-jitter sim: pan_jittered should equal pan"
    );
}

// ── Gimbal mount ──────────────────────────────────────────────────────

#[test]
fn gimbal_mount_translation_shifts_look_point() {
    // A simulator configured with a 20 m forward mount translation should
    // see its nadir look-point shifted 20 m north of the platform lat/lon
    // (platform level, yaw=0). Same setup without the mount serves as the
    // baseline.
    let mut baseline_cfg = Config::default();
    baseline_cfg.jitter_amplitude = b32(0.0);
    baseline_cfg.noise_floor = b32(0.0);

    let mut mount_cfg = baseline_cfg.clone();
    mount_cfg.gimbal_mount = GimbalMount {
        translation_body_m: [20.0, 0.0, 0.0].map(b64),
        rotation_body_rad: [0.0; 3].map(b64),
    };

    let mut sim_base = simulator(baseline_cfg);
    let mut sim_mount = simulator(mount_cfg);

    for s in [&mut sim_base, &mut sim_mount] {
        s.pos_lat = b64(0.5_f64);
        s.pos_lon = b64(-1.5_f64);
        s.pos_alt = b64(2000.0);
        s.platform_yaw = b32(0.0);
        s.platform_roll = b32(0.0);
        s.platform_pitch = b32(0.0);
        s.mode = OrionMode::OrionModePosition;
        s.target_pan = b32(0.0);
        s.target_tilt = b32(std::f32::consts::FRAC_PI_2); // nadir
    }

    // Converge both.
    for _ in 0..80 {
        tick(&mut sim_base, 0.02);
        tick(&mut sim_mount, 0.02);
    }

    // The mount-equipped simulator's look-point should be ~20 m north,
    // which translates to a positive latitude shift of ~20/6.371e6 rad.
    // Jitter is off and the gimbal converged, so the difference should
    // be driven purely by the mount translation. Allow a generous margin
    // to absorb the small NED-frame approximation drift.
    let dn_m = (sim_mount.look_lat.v() - sim_base.look_lat.v()) * 6_371_000.0;
    assert!(
        (dn_m - 20.0).abs() < 0.5,
        "expected ~20 m north shift, got {:.3} m",
        dn_m
    );
}

#[test]
fn gimbal_mount_rotation_changes_geopoint_target() {
    // Same platform state + same commanded geopoint target, one sim with
    // a zero mount and one with a 5° mount yaw offset. The required
    // pan/tilt (inverse geopoint) must differ by the mount yaw offset.
    let mut cfg_a = Config::default();
    cfg_a.jitter_amplitude = b32(0.0);
    cfg_a.noise_floor = b32(0.0);

    let mut cfg_b = cfg_a.clone();
    cfg_b.gimbal_mount = GimbalMount {
        translation_body_m: [0.0; 3].map(b64),
        rotation_body_rad: [0.0, 0.0, 5.0_f64.to_radians()].map(b64),
    };

    let mut sim_a = simulator(cfg_a);
    let mut sim_b = simulator(cfg_b);

    for s in [&mut sim_a, &mut sim_b] {
        s.pos_lat = b64(0.5);
        s.pos_lon = b64(-1.5);
        s.pos_alt = b64(2000.0);
        s.mode = OrionMode::OrionModeGeopoint;
        s.geopoint_lat = b64(0.5001);
        s.geopoint_lon = b64(-1.4999);
        s.geopoint_alt = b64(0.0);
    }

    // Single tick recomputes set_target from inverse_geopoint.
    tick(&mut sim_a, 0.02);
    tick(&mut sim_b, 0.02);

    // The mount-yaw-offset sim should command a pan that is 5° less than
    // the baseline (its boresight already points 5° further along yaw).
    let delta = sim_a.target_pan.v() - sim_b.target_pan.v();
    assert!(
        (delta - 5.0_f32.to_radians()).abs() < 1e-4,
        "expected 5° pan delta, got {}°",
        delta.to_degrees()
    );
}

// ── Degraded GPS ──────────────────────────────────────────────────────

#[test]
fn degraded_gps_adds_noise_to_position() {
    let mut sim = GimbalSimulator::default();
    sim.pos_lat = b64(0.5);
    sim.pos_lon = b64(-1.0);
    sim.pos_alt = b64(500.0);
    tick(&mut sim, 0.02); // ensure noise_seed is advanced

    sim.faults.inject_degraded_gps(b64(0.001));
    let telem = telemetry(&sim);

    // Position should be close to true but not exact.
    assert!(
        (telem.pos_lat.v() - 0.5).abs() < 0.01,
        "degraded GPS: lat should be near true value, got {}",
        telem.pos_lat.v()
    );
    assert!(
        (telem.pos_lat.v() - 0.5).abs() > 1e-12,
        "degraded GPS: lat should have noise"
    );
    assert!(telem.pos_alt.v() != 0.0, "degraded GPS: alt should not be zero");
}

#[test]
fn degraded_gps_does_not_zero_position() {
    let mut sim = GimbalSimulator::default();
    sim.pos_lat = b64(0.5);
    sim.pos_lon = b64(-1.0);
    sim.pos_alt = b64(500.0);
    sim.faults.inject_degraded_gps(b64(0.0001));
    let telem = telemetry(&sim);

    // Unlike gps_loss, positions should NOT be zero.
    assert!(telem.pos_lat.v() != 0.0);
    assert!(telem.pos_lon.v() != 0.0);
    assert!(telem.pos_alt.v() != 0.0);
}

// ── Encoder fault ─────────────────────────────────────────────────────

#[test]
fn encoder_fault_freezes_reported_pan_tilt() {
    let mut sim = GimbalSimulator::default();
    sim.mode = OrionMode::OrionModePosition;
    sim.target_pan = b32(1.0);
    sim.target_tilt = b32(0.5);

    // Move the gimbal partway.
    for _ in 0..5 {
        tick(&mut sim, 0.02);
    }
    let frozen_pan = sim.pan.v();
    let frozen_tilt = sim.tilt.v();

    // Inject encoder fault at current position.
    sim.faults.inject_encoder_fault(b32(frozen_pan), b32(frozen_tilt));

    // Continue moving internally.
    for _ in 0..50 {
        tick(&mut sim, 0.02);
    }

    // Internal state should have moved.
    assert!(
        (sim.pan.v() - frozen_pan).abs() > 0.01,
        "internal pan should have moved: pan={} frozen={}",
        sim.pan.v(), frozen_pan
    );

    // Telemetry should still report frozen values.
    let telem = telemetry(&sim);
    assert!(
        (telem.pan.v() - wrap_angle(frozen_pan)).abs() < 1e-4,
        "reported pan={} should be frozen at {}",
        telem.pan.v(), frozen_pan
    );
    assert!(
        (telem.tilt.v() - frozen_tilt).abs() < 1e-4,
        "reported tilt={} should be frozen at {}",
        telem.tilt.v(), frozen_tilt
    );
}

#[test]
fn encoder_fault_clear_resumes_reporting() {
    let mut sim = GimbalSimulator::default();
    sim.mode = OrionMode::OrionModePosition;
    sim.target_pan = b32(1.0);
    sim.faults.inject_encoder_fault(b32(0.0), b32(0.0));

    for _ in 0..50 {
        tick(&mut sim, 0.02);
    }

    sim.faults.clear_encoder_fault();
    tick(&mut sim, 0.02);
    let telem = telemetry(&sim);

    // After clearing, reported pan should match actual (jittered) pan.
    assert!(
        (telem.pan.v() - wrap_angle(sim.pan_jittered.v())).abs() < 1e-4,
        "after clear: reported pan={} should match actual={}",
        telem.pan.v(), sim.pan_jittered.v()
    );
}

// ── Thermal throttling ────────────────────────────────────────────────

#[test]
fn thermal_throttle_reduces_slew_rate() {
    // Two identical simulators: one with thermal warning, one without.
    let mut sim_normal = GimbalSimulator::default();
    sim_normal.mode = OrionMode::OrionModePosition;
    sim_normal.target_pan = b32(1.0);

    let mut sim_hot = GimbalSimulator::default();
    sim_hot.mode = OrionMode::OrionModePosition;
    sim_hot.target_pan = b32(1.0);
    sim_hot.faults.inject_thermal();

    // Run both for the same time.
    for _ in 0..20 {
        tick(&mut sim_normal, 0.02);
        tick(&mut sim_hot, 0.02);
    }

    // The throttled sim should have moved less.
    assert!(
        sim_hot.pan.v() < sim_normal.pan.v(),
        "thermal throttle: hot pan={} should be less than normal pan={}",
        sim_hot.pan.v(), sim_normal.pan.v()
    );
}

#[test]
fn thermal_throttle_limits_rate_mode() {
    let mut sim = GimbalSimulator::default();
    sim.mode = OrionMode::OrionModeRate;
    sim.pan_rate_cmd = sim.config.max_slew_rate; // full speed command
    sim.faults.inject_thermal();

    // Run until rate settles.
    for _ in 0..200 {
        tick(&mut sim, 0.02);
    }

    // Rate should be clamped to half of max_slew_rate.
    let half_max = sim.config.max_slew_rate.v() * 0.5;
    assert!(
        (sim.pan_rate.v() - half_max).abs() < 0.01,
        "thermal throttle rate mode: pan_rate={} should be near half_max={}",
        sim.pan_rate.v(), half_max
    );
}

// ── Gyroscopic coupling ────────────────────────────────────────────────

#[test]
fn gyro_coupling_zero_factor_no_effect() {
    let mut cfg = Config::default();
    cfg.gyro_coupling_factor = b32(0.0);
    cfg.jitter_amplitude = b32(0.0);
    cfg.jitter_amplitude_2 = b32(0.0);
    cfg.noise_floor = b32(0.0);
    let mut sim = simulator(cfg.clone());
    sim.mode = OrionMode::OrionModeRate;
    sim.pan_rate_cmd = b32(0.5);
    sim.tilt_rate_cmd = b32(0.3);
    for _ in 0..10 {
        tick(&mut sim, 0.02);
    }
    let pan_baseline = sim.pan.v();
    let tilt_baseline = sim.tilt.v();

    let mut sim2 = simulator(cfg);
    sim2.mode = OrionMode::OrionModeRate;
    sim2.pan_rate_cmd = b32(0.5);
    sim2.tilt_rate_cmd = b32(0.3);
    for _ in 0..10 {
        tick(&mut sim2, 0.02);
    }
    assert!((sim2.pan.v() - pan_baseline).abs() < 1e-8);
    assert!((sim2.tilt.v() - tilt_baseline).abs() < 1e-8);
}

#[test]
fn gyro_coupling_one_axis_zero_no_effect() {
    let mut cfg = Config::default();
    cfg.gyro_coupling_factor = b32(0.5);
    cfg.jitter_amplitude = b32(0.0);
    cfg.jitter_amplitude_2 = b32(0.0);
    cfg.noise_floor = b32(0.0);
    let mut sim = simulator(cfg.clone());
    sim.mode = OrionMode::OrionModeRate;
    sim.pan_rate_cmd = b32(0.5);
    sim.tilt_rate_cmd = b32(0.0);

    let mut sim_no = {
        let mut c = cfg.clone();
        c.gyro_coupling_factor = b32(0.0);
        simulator(c)
    };
    sim_no.mode = OrionMode::OrionModeRate;
    sim_no.pan_rate_cmd = b32(0.5);
    sim_no.tilt_rate_cmd = b32(0.0);

    for _ in 0..50 {
        tick(&mut sim, 0.02);
        tick(&mut sim_no, 0.02);
    }
    assert!((sim.pan.v() - sim_no.pan.v()).abs() < 1e-8);
    assert!((sim.tilt.v() - sim_no.tilt.v()).abs() < 1e-8);
}

#[test]
fn gyro_coupling_opposite_signs() {
    // When both axes slew, the coupling pushes pan and tilt by the same
    // magnitude with opposite signs (genuine cross-axis perturbation).
    let mut cfg_base = Config::default();
    cfg_base.jitter_amplitude = b32(0.0);
    cfg_base.jitter_amplitude_2 = b32(0.0);
    cfg_base.noise_floor = b32(0.0);
    cfg_base.gyro_coupling_factor = b32(0.0);
    let mut sim_base = simulator(cfg_base);
    sim_base.mode = OrionMode::OrionModeRate;
    sim_base.pan_rate_cmd = b32(0.5);
    sim_base.tilt_rate_cmd = b32(0.3);
    for _ in 0..50 { tick(&mut sim_base, 0.02); }

    let mut cfg_c = Config::default();
    cfg_c.jitter_amplitude = b32(0.0);
    cfg_c.jitter_amplitude_2 = b32(0.0);
    cfg_c.noise_floor = b32(0.0);
    cfg_c.gyro_coupling_factor = b32(0.1);
    let mut sim_c = simulator(cfg_c);
    sim_c.mode = OrionMode::OrionModeRate;
    sim_c.pan_rate_cmd = b32(0.5);
    sim_c.tilt_rate_cmd = b32(0.3);
    for _ in 0..50 { tick(&mut sim_c, 0.02); }

    let pan_diff = sim_c.pan.v() - sim_base.pan.v();
    let tilt_diff = sim_c.tilt.v() - sim_base.tilt.v();
    assert!(pan_diff.abs() > 1e-6, "pan diff should be non-zero: {}", pan_diff);
    // Opposite signs — pan_diff ≈ −tilt_diff.
    assert!((pan_diff + tilt_diff).abs() < 1e-6,
        "expected opposite-sign coupling: pan_diff={}, tilt_diff={}",
        pan_diff, tilt_diff);
}

// ── Multi-frequency jitter ─────────────────────────────────────────────

#[test]
fn second_jitter_frequency_nonzero() {
    let mut cfg = Config::default();
    // Disable the primary and noise; keep only the secondary resonance.
    cfg.jitter_amplitude = b32(0.0);
    cfg.noise_floor = b32(0.0);
    cfg.jitter_amplitude_2 = b32(0.01);
    cfg.jitter_freq_2 = b32(47.0);
    let mut sim = simulator(cfg);
    tick(&mut sim, 0.02);
    assert!(sim.pan_jitter.v() != 0.0 || sim.tilt_jitter.v() != 0.0);
}

// ── Coordinated geopoint slew ──────────────────────────────────────────

#[test]
fn geopoint_axes_arrive_together() {
    // With coordinated rates both axes should cross their target windows
    // within a few ticks of each other even when one needs a much larger
    // angular travel. Use a geopoint that requires a large pan swing and a
    // small tilt delta relative to the platform's initial LOS.
    let mut cfg = Config::default();
    cfg.platform_alt = b64(1000.0);
    cfg.jitter_amplitude = b32(0.0);
    cfg.jitter_amplitude_2 = b32(0.0);
    cfg.noise_floor = b32(0.0);
    let mut sim = simulator(cfg);
    sim.mode = OrionMode::OrionModeGeopoint;
    sim.pos_alt = b64(1000.0);
    // Target ~5 km east of origin so pan swings hard but tilt is modest.
    sim.geopoint_lat = b64(0.0);
    sim.geopoint_lon = b64(5_000.0 / 6_378_000.0); // ~5 km east in radians
    sim.geopoint_alt = b64(0.0);

    let mut pan_settled = None;
    let mut tilt_settled = None;
    for i in 0..400 {
        tick(&mut sim, 0.02);
        if pan_settled.is_none() && (sim.pan.v() - sim.target_pan.v()).abs() < 0.01 {
            pan_settled = Some(i);
        }
        if tilt_settled.is_none() && (sim.tilt.v() - sim.target_tilt.v()).abs() < 0.01 {
            tilt_settled = Some(i);
        }
    }
    let pan_i = pan_settled.expect("pan should settle");
    let tilt_i = tilt_settled.expect("tilt should settle");
    // Without coordination the slower axis would settle much earlier; with
    // coordination the two converge within ~50 ticks of each other.
    assert!((pan_i as i32 - tilt_i as i32).abs() < 50,
        "axes should arrive together: pan={}, tilt={}", pan_i, tilt_i);
}

// ── Laser rangefinder ──────────────────────────────────────────────────

#[test]
fn laser_produces_slant_range() {
    // Park the gimbal looking straight down from 1000 m and let one tick
    // recompute the look-point + slant range.
    let mut sim = GimbalSimulator::default();
    sim.pos_alt = b64(1000.0);
    sim.mode = OrionMode::OrionModeDisabled;
    sim.tilt = b32((90.0_f32).to_radians()); // +90° = nadir (looking straight down)
    tick(&mut sim, 0.02);
    assert!(sim.slant_range_m.v() > 100.0,
        "slant_range_m should be ≈1000 m when looking down from 1000 m, got {}",
        sim.slant_range_m.v());
    let telem = telemetry(&sim);
    assert!(matches!(telem.range_source, RangeDataSrc::RangeSrcLaser));
}

#[test]
fn laser_fault_disables_range_source() {
    let mut sim = GimbalSimulator::default();
    sim.pos_alt = b64(1000.0);
    sim.mode = OrionMode::OrionModeDisabled;
    sim.tilt = b32((90.0_f32).to_radians()); // +90° = nadir (looking straight down)
    tick(&mut sim, 0.02);
    sim.faults.inject_laser_fault();
    let telem = telemetry(&sim);
    assert!(matches!(telem.range_source, RangeDataSrc::RangeSrcNone));
}

// ── FOV-derived gate size ─────────────────────────────────────────────

#[test]
fn gate_size_scales_with_fov() {
    let mut cfg = Config::default();
    cfg.track_gate_size_deg = b32(1.0);
    let mut sim_wide = simulator(cfg.clone());
    sim_wide.zoom_level = b32(0.0);
    let (h, v) = fov_at_zoom_for_camera(&sim_wide.config, 0, 0.0);
    sim_wide.hfov = b32(h); sim_wide.vfov = b32(v);
    let gate_wide = sensor_response(&sim_wide).gate_x_size;

    let mut sim_narrow = simulator(cfg);
    sim_narrow.zoom_level = b32(1.0);
    let (h, v) = fov_at_zoom_for_camera(&sim_narrow.config, 0, 1.0);
    sim_narrow.hfov = b32(h); sim_narrow.vfov = b32(v);
    let gate_narrow = sensor_response(&sim_narrow).gate_x_size;

    // Narrower FOV → same angular gate occupies a larger fraction → more
    // pixels.
    assert!(gate_narrow > gate_wide,
        "narrow gate px ({}) should exceed wide gate px ({})",
        gate_narrow, gate_wide);
}

// ── Gate position spec compliance ─────────────────────────────────────

#[test]
fn gate_pos_zero_outside_track_mode() {
    let mut sim = GimbalSimulator::default();
    sim.mode = OrionMode::OrionModePosition;
    sim.pan = b32(0.5);
    sim.tilt = b32(-0.3);
    let r = sensor_response(&sim);
    assert_eq!(r.gate_x_pos.v(), 0.0);
    assert_eq!(r.gate_y_pos.v(), 0.0);
}

#[test]
fn gate_pos_follows_track_target() {
    let mut sim = GimbalSimulator::default();
    sim.mode = OrionMode::OrionModeTrack;
    sim.track_active = true;
    sim.track_target = [0.12, -0.08].map(b32);
    let r = sensor_response(&sim);
    assert!((r.gate_x_pos.v() - 0.12).abs() < 1e-6);
    assert!((r.gate_y_pos.v() - (-0.08)).abs() < 1e-6);
}

// ── Settled flag ──────────────────────────────────────────────────────

#[test]
fn settled_flag_set_when_converged() {
    let mut sim = GimbalSimulator::default();
    sim.mode = OrionMode::OrionModePosition;
    sim.target_pan = b32(0.0);
    sim.target_tilt = b32(0.0);
    tick(&mut sim, 0.02);
    assert!(sim.settled);
}

#[test]
fn settled_flag_false_while_slewing() {
    let mut sim = GimbalSimulator::default();
    sim.mode = OrionMode::OrionModePosition;
    sim.target_pan = b32(1.0);
    sim.target_tilt = b32(0.0);
    tick(&mut sim, 0.02);
    assert!(!sim.settled);
}

fn look_from(
    lat: f64,
    lon: f64,
    alt: f64,
    yaw: f32,
    roll: f32,
    pitch: f32,
    stabilization: f32,
    pan: f32,
    tilt: f32,
    refraction_enabled: bool,
) -> Option<Vec3> {
    let pose = Pose {
        lat,
        lon,
        alt,
        roll: roll as f64,
        pitch: pitch as f64,
        yaw: yaw as f64,
        stabilization: stabilization as f64,
        mount_translation: [0.0; 3],
        mount_rotation: [0.0; 3],
    };
    compute_look_point(&pose, pan, tilt, refraction_enabled, 0.0)
}

fn point_from(
    lat: f64,
    lon: f64,
    alt: f64,
    yaw: f32,
    to_lat: f64,
    to_lon: f64,
    to_alt: f64,
) -> (f32, f32) {
    let pose = Pose {
        lat,
        lon,
        alt,
        roll: 0.0,
        pitch: 0.0,
        yaw: yaw as f64,
        stabilization: 0.0,
        mount_translation: [0.0; 3],
        mount_rotation: [0.0; 3],
    };
    inverse_geopoint(&pose, to_lat, to_lon, to_alt)
}

#[test]
fn ecef_roundtrip() {
    let lat = 37.0_f64.to_radians();
    let lon = -122.0_f64.to_radians();
    let alt = 1000.0;
    let [x, y, z] = geodetic_to_ecef(lat, lon, alt);
    let [lat2, lon2, alt2] = ecef_to_geodetic(x, y, z);
    assert!((lat - lat2).abs() < 1e-10, "lat roundtrip: {} vs {}", lat, lat2);
    assert!((lon - lon2).abs() < 1e-10, "lon roundtrip: {} vs {}", lon, lon2);
    assert!((alt - alt2).abs() < 0.01, "alt roundtrip: {} vs {}", alt, alt2);
}

#[test]
fn look_point_nadir() {
    let lat = 37.0_f64.to_radians();
    let lon = -122.0_f64.to_radians();
    let alt = 1000.0;
    let result = look_from(lat, lon, alt, 0.0, 0.0, 0.0, 0.0, 0.0, std::f32::consts::FRAC_PI_2, false);
    let [rl, ro, ra] = result.expect("should intersect");
    assert!((rl - lat).abs() < 1e-5, "look lat should match platform lat");
    assert!((ro - lon).abs() < 1e-5, "look lon should match platform lon");
    assert!(ra < 10.0, "look alt should be near sea level");
}

#[test]
fn inverse_geopoint_roundtrip() {
    let pos_lat = 37.0_f64.to_radians();
    let pos_lon = -122.0_f64.to_radians();
    let pos_alt = 1000.0;
    let pan0 = 0.5_f32;
    let tilt0 = 0.7_f32;
    if let Some([tl, to, ta]) = look_from(pos_lat, pos_lon, pos_alt, 0.0, 0.0, 0.0, 0.0, pan0, tilt0, false) {
        let (pan1, tilt1) = point_from(pos_lat, pos_lon, pos_alt, 0.0, tl, to, ta);
        assert!((pan1 - pan0).abs() < 0.01, "pan inverse: {} vs {}", pan1, pan0);
        assert!((tilt1 - tilt0).abs() < 0.01, "tilt inverse: {} vs {}", tilt1, tilt0);
    }
}

#[test]
fn inverse_geopoint_nonzero_altitude() {
    let pos_lat = 37.0_f64.to_radians();
    let pos_lon = -122.0_f64.to_radians();
    let pos_alt = 2000.0;
    let target_lat = 37.001_f64.to_radians();
    let target_lon = -121.999_f64.to_radians();

    let (pan0, tilt0) = point_from(pos_lat, pos_lon, pos_alt, 0.0, target_lat, target_lon, 0.0);
    let (pan500, tilt500) = point_from(pos_lat, pos_lon, pos_alt, 0.0, target_lat, target_lon, 500.0);

    assert!((pan0 - pan500).abs() < 0.01, "pan should be similar: {} vs {}", pan0, pan500);
    assert!(tilt500 < tilt0, "higher target alt should reduce tilt: {} vs {}", tilt500, tilt0);
}

#[test]
fn stabilization_quality_zero_matches_yaw_only() {
    let lat = 37.0_f64.to_radians();
    let lon = -122.0_f64.to_radians();
    let alt = 1000.0;
    let yaw = 0.3_f32;
    let pan = 0.5_f32;
    let tilt = 0.7_f32;

    let result_no_rp = look_from(lat, lon, alt, yaw, 0.0, 0.0, 0.0, pan, tilt, false);
    let result_with_rp = look_from(lat, lon, alt, yaw, 0.2, -0.1, 0.0, pan, tilt, false);
    let a = result_no_rp.expect("should intersect");
    let b = result_with_rp.expect("should intersect");
    assert!((a[0] - b[0]).abs() < 1e-10, "lat should match: {} vs {}", a[0], b[0]);
    assert!((a[1] - b[1]).abs() < 1e-10, "lon should match: {} vs {}", a[1], b[1]);
    assert!((a[2] - b[2]).abs() < 0.01, "alt should match: {} vs {}", a[2], b[2]);
}

#[test]
fn stabilization_quality_one_shifts_look_point_with_roll() {
    let lat = 37.0_f64.to_radians();
    let lon = -122.0_f64.to_radians();
    let alt = 1000.0;
    let yaw = 0.0_f32;
    let pan = 0.0_f32;
    let tilt = std::f32::consts::FRAC_PI_4;

    let result_no_roll = look_from(lat, lon, alt, yaw, 0.0, 0.0, 1.0, pan, tilt, false);
    let roll = 10.0_f32.to_radians();
    let result_with_roll = look_from(lat, lon, alt, yaw, roll, 0.0, 1.0, pan, tilt, false);

    let a = result_no_roll.expect("should intersect");
    let b = result_with_roll.expect("should intersect");
    let dlat = (a[0] - b[0]).abs();
    let dlon = (a[1] - b[1]).abs();
    let shift = dlat + dlon;
    assert!(shift > 1e-6, "look-point should shift with roll: dlat={}, dlon={}", dlat, dlon);
}

#[test]
fn stabilization_quality_one_shifts_look_point_with_pitch() {
    let lat = 37.0_f64.to_radians();
    let lon = -122.0_f64.to_radians();
    let alt = 1000.0;
    let yaw = 0.0_f32;
    let pan = 0.0_f32;
    let tilt = std::f32::consts::FRAC_PI_4;

    let result_no_pitch = look_from(lat, lon, alt, yaw, 0.0, 0.0, 1.0, pan, tilt, false);
    let pitch = 5.0_f32.to_radians();
    let result_with_pitch = look_from(lat, lon, alt, yaw, 0.0, pitch, 1.0, pan, tilt, false);

    let a = result_no_pitch.expect("should intersect");
    let b = result_with_pitch.expect("should intersect");
    let dlat = (a[0] - b[0]).abs();
    let dlon = (a[1] - b[1]).abs();
    let shift = dlat + dlon;
    assert!(shift > 1e-6, "look-point should shift with pitch: dlat={}, dlon={}", dlat, dlon);
}

#[test]
fn stabilization_quality_half_partial_effect() {
    let lat = 37.0_f64.to_radians();
    let lon = -122.0_f64.to_radians();
    let alt = 1000.0;
    let roll = 10.0_f32.to_radians();
    let pan = 0.0_f32;
    let tilt = std::f32::consts::FRAC_PI_4;

    let base = look_from(lat, lon, alt, 0.0, 0.0, 0.0, 0.0, pan, tilt, false)
        .expect("intersect");
    let half = look_from(lat, lon, alt, 0.0, roll, 0.0, 0.5, pan, tilt, false)
        .expect("intersect");
    let full = look_from(lat, lon, alt, 0.0, roll, 0.0, 1.0, pan, tilt, false)
        .expect("intersect");

    let shift_half = (base[0] - half[0]).abs() + (base[1] - half[1]).abs();
    let shift_full = (base[0] - full[0]).abs() + (base[1] - full[1]).abs();
    assert!(shift_half > 1e-7, "half quality should produce a shift");
    assert!(shift_full > shift_half, "full quality should shift more than half: {} vs {}", shift_full, shift_half);
}

#[test]
fn refraction_shallow_angle_shifts_look_point_further() {
    let lat = 37.0_f64.to_radians();
    let lon = -122.0_f64.to_radians();
    let alt = 5000.0;
    let pan = 0.0_f32;
    let tilt = 0.05_f32;

    let without = look_from(lat, lon, alt, 0.0, 0.0, 0.0, 0.0, pan, tilt, false)
        .expect("should intersect without refraction");
    let with = look_from(lat, lon, alt, 0.0, 0.0, 0.0, 0.0, pan, tilt, true)
        .expect("should intersect with refraction");

    assert!(
        with[0] > without[0],
        "refraction should shift look-point further north: with={} vs without={}",
        with[0].to_degrees(), without[0].to_degrees()
    );
}

#[test]
fn bennett_refraction_values() {
    let r_horizon = bennett_refraction(0.0);
    assert!(r_horizon > 0.0, "refraction at horizon should be positive");
    assert!(r_horizon > 0.005, "refraction at horizon should be > 5 mrad: {}", r_horizon);
    assert!(r_horizon < 0.02, "refraction at horizon should be < 20 mrad: {}", r_horizon);

    let r_45 = bennett_refraction(std::f64::consts::FRAC_PI_4);
    assert!(r_45 < 0.001, "refraction at 45° should be < 1 mrad: {}", r_45);
    assert!(r_45 >= 0.0, "refraction should never be negative");
}

#[test]
fn grounded_platform_reports_no_look_point() {
    let mut sim = GimbalSimulator::default();
    sim.look_lat = b64(0.5);
    sim.look_lon = b64(0.25);
    sim.look_alt = b64(12.0);
    sim.pos_alt = b64(100.0);
    assert_eq!(sensor_response(&sim).entity_alt.v(), 12.0);
    sim.pos_alt = b64(0.0);
    assert_eq!(sensor_response(&sim).entity_lat.v(), 0.0);
    assert_eq!(sensor_response(&sim).entity_lon.v(), 0.0);
    assert_eq!(sensor_response(&sim).entity_alt.v(), 0.0);
    sim.pos_alt = b64(-5.0);
    assert_eq!(sensor_response(&sim).entity_alt.v(), 0.0);
}

#[test]
fn coupling_terms_are_opposite() {
    let mut sim = GimbalSimulator::default();
    sim.pan_rate = b32(0.5);
    sim.tilt_rate = b32(0.3);
    assert_eq!(sim.coupling_terms(b32(0.25)), None);
    sim.config.gyro_coupling_factor = b32(0.1);
    assert_eq!(sim.coupling_terms(b32(0.25)), Some((b32(0.25), b32(-0.25))));
    assert_eq!(sim.coupling_terms(b32(-0.5)), Some((b32(-0.5), b32(0.5))));
    sim.tilt_rate = b32(-0.0);
    assert_eq!(sim.coupling_terms(b32(0.25)), None);
}

#[test]
fn minus_half_a_turn_is_half_a_turn() {
    assert_eq!(into_half_turn(b32(-PI)).v(), PI);
    assert_eq!(into_half_turn(b32(PI)).v(), PI);
    assert_eq!(into_half_turn(b32(-3.14)).v(), -3.14);
    assert_eq!(wrap_angle(PI), PI);
    assert_eq!(wrap_angle(-PI), PI);
}

#[test]
fn frozen_pan_is_reported_wherever_the_gimbal_is() {
    let mut sim = GimbalSimulator::default();
    sim.faults.inject_encoder_fault(b32(0.75), b32(-0.25));
    let mut reports = Vec::new();
    for pan in [0.0, 1.5, -2.0] {
        sim.pan = b32(pan);
        sim.pan_jittered = b32(pan);
        reports.push(telemetry(&sim).pan.v());
    }
    assert!((reports[0] - 0.75).abs() < 1e-6);
    assert_eq!(reports[0], reports[1]);
    assert_eq!(reports[0], reports[2]);
    sim.faults.clear_encoder_fault();
    assert!((telemetry(&sim).pan.v() + 2.0).abs() < 1e-6);
}

#[test]
fn one_axis_on_target_leaves_the_other_under_way() {
    let mut sim = GimbalSimulator::default();
    sim.mode = OrionMode::OrionModePosition;
    sim.tilt = b32(0.1);
    sim.target_tilt = b32(0.1);
    sim.target_pan = b32(0.3);
    for _ in 0..500 {
        tick(&mut sim, 0.02);
        assert!(sim.pan.v() <= 0.3);
        assert_eq!(sim.tilt.v(), 0.1);
    }
    assert!((sim.pan.v() - 0.3).abs() < 1e-4);
}

#[test]
fn resting_axes_are_not_coupled() {
    let mut sim = GimbalSimulator::default();
    sim.config.gyro_coupling_factor = b32(0.5);
    sim.pan = b32(0.5);
    sim.tilt = b32(0.25);
    sim.mode = OrionMode::OrionModeRate;
    sim.pan_rate = b32(1.0);
    sim.tilt_rate = b32(1.0);
    sim.faults.inject_motor_fault();
    tick(&mut sim, 0.02);
    assert_eq!((sim.pan.v(), sim.tilt.v()), (0.5, 0.25));
    assert_eq!((sim.pan_rate.v(), sim.tilt_rate.v()), (0.0, 0.0));
    sim.faults.clear_motor_fault();
    sim.mode = OrionMode::OrionModeDisabled;
    tick(&mut sim, 0.02);
    assert_eq!((sim.pan.v(), sim.tilt.v()), (0.5, 0.25));
}

#[test]
fn laser_fault_leaves_no_range() {
    let mut sim = GimbalSimulator::default();
    sim.pos_alt = b64(1000.0);
    sim.tilt = b32(90.0_f32.to_radians());
    tick(&mut sim, 0.02);
    assert!(sim.slant_range_m.v() > 100.0);
    assert!(sim.track_geometry().range_m.is_some());
    sim.faults.inject_laser_fault();
    assert!(sim.track_geometry().range_m.is_none());
    tick(&mut sim, 0.02);
    assert_eq!(sim.slant_range_m.v(), 0.0);
    assert!(sim.look_lat.v().abs() < 1e-5 && sim.look_alt.v().abs() < 10.0);
    sim.faults.clear_laser_fault();
    tick(&mut sim, 0.02);
    assert!(sim.slant_range_m.v() > 100.0);
}

#[test]
fn track_data_is_cut_off_at_its_bounds() {
    let mut sim = GimbalSimulator::default();
    sim.mode = OrionMode::OrionModeTrack;
    sim.track_active = true;
    let mut parts = telemetry_parts(&sim);
    parts.track_size = b32(7.0);
    parts.track_confidence = b32(1.5);
    let track = sim.to_telemetry(&parts).primary_track_data.unwrap();
    assert_eq!((track.size.v(), track.confidence.v()), (0.5, 1.0));
    parts.track_size = b32(-7.0);
    parts.track_confidence = b32(-1.5);
    let track = sim.to_telemetry(&parts).primary_track_data.unwrap();
    assert_eq!((track.size.v(), track.confidence.v()), (0.01, 0.0));
}

#[test]
fn motions_are_asked_for_by_the_mode() {
    let mut sim = GimbalSimulator::default();
    let rest = Axis {
        pos: b32(0.0),
        rate: b32(0.0),
    };
    let at_rate = Made::AtRate {
        pan: rest,
        tilt: rest,
    };
    assert!(sim.is_asked_for(&Made::Nothing));
    assert!(!sim.is_asked_for(&at_rate));
    sim.mode = OrionMode::OrionModeRate;
    assert!(sim.is_asked_for(&at_rate));
    sim.faults.inject_motor_fault();
    assert!(!sim.is_asked_for(&at_rate));
    assert!(sim.is_asked_for(&Made::Nothing));
}

#[test]
fn unusable_limits_matter_to_position_targets_only() {
    let mut sim = GimbalSimulator::default();
    sim.config.tilt_min = b32(1.0);
    sim.config.tilt_max = b32(-1.0);
    let sc = SensorControl {
        sensor_state: 1,
        track_mode: 1,
        gain: b32(0.75),
        level: b32(0.5),
        ..Default::default()
    };
    apply_sensor_control(&mut sim, &sc);
    assert_eq!(sim.mode, OrionMode::OrionModeRate);
    assert!(sim.pan_rate_cmd.v() > 0.0);
}

