//! Conversion between Orion and CIGI.

use std::f32::consts::PI as PI32;
use std::f64::consts::PI as PI64;

use cigi_trillium::bits::{F32Bits, F64Bits};
use cigi_trillium::cigi::messages::{SensorControl, SensorExtendedResponse};
use cigi_trillium::config::GimbalMount;
use cigi_trillium::convert::to_cigi::{
    orion_cmd_to_sensor_control, orion_cmd_to_view_control, target_scale, view_pose,
    telemetry_to_sensor_extended_response,
};
use cigi_trillium::convert::to_orion::sensor_response_to_telemetry;
use cigi_trillium::convert::{MAX_ANGLE, MAX_SLEW_RATE};
use cigi_trillium::orion::{GeolocateTelemetryCorePacket, OrionCmd, OrionCmdPacket, OrionMode};

fn b32(x: f32) -> F32Bits {
    F32Bits::from_bits(x.to_bits())
}

fn b64(x: f64) -> F64Bits {
    F64Bits::from_bits(x.to_bits())
}

fn f32_of(x: F32Bits) -> f32 {
    f32::from_bits(x.bits)
}

fn f64_of(x: F64Bits) -> f64 {
    f64::from_bits(x.bits)
}

fn response(
    t: &GeolocateTelemetryCorePacket,
    view_id: u16,
    sensor_id: u8,
    settled: bool,
    track_active: bool,
) -> SensorExtendedResponse {
    let deg = 180.0 / PI64;
    telemetry_to_sensor_extended_response(
        t,
        b64(f64_of(t.pos_lat) * deg),
        b64(f64_of(t.pos_lon) * deg),
        view_id,
        sensor_id,
        settled,
        track_active,
    )
}

fn in_mode(mode: OrionMode) -> GeolocateTelemetryCorePacket {
    let mut t = GeolocateTelemetryCorePacket::default();
    t.mode = mode;
    t
}

#[test]
fn telem_gate_pos_boresighted() {
    let mut t = GeolocateTelemetryCorePacket::default();
    t.pan = b32(PI32 / 4.0);
    t.tilt = b32(-PI32 / 6.0);
    let r = response(&t, 0, 0, false, false);
    assert_eq!(f32_of(r.gate_x_pos), 0.0);
    assert_eq!(f32_of(r.gate_y_pos), 0.0);
}

#[test]
fn telem_lat_lon_rad_to_deg() {
    let mut t = GeolocateTelemetryCorePacket::default();
    t.pos_lat = b64(PI64 / 2.0);
    t.pos_lon = b64(-PI64 / 4.0);
    let r = response(&t, 0, 0, false, false);
    assert!((f64_of(r.entity_lat) - 90.0).abs() < 1e-10);
    assert!((f64_of(r.entity_lon) - (-45.0)).abs() < 1e-10);
}

#[test]
fn telem_alt_passes_through() {
    let mut t = GeolocateTelemetryCorePacket::default();
    t.pos_alt = b64(1234.5);
    let r = response(&t, 0, 0, false, false);
    assert!((f64_of(r.entity_alt) - 1234.5).abs() < 1e-9);
}

#[test]
fn telem_view_and_sensor_id_passed_through() {
    let r = response(&GeolocateTelemetryCorePacket::default(), 7, 3, false, false);
    assert_eq!(r.view_id, 7);
    assert_eq!(r.sensor_id, 3);
}

#[test]
fn telem_sensor_status_track_active() {
    let t = in_mode(OrionMode::OrionModeTrack);
    assert_eq!(response(&t, 0, 0, false, true).sensor_status, 1);
}

#[test]
fn telem_sensor_status_track_lost_is_breaklock() {
    let t = in_mode(OrionMode::OrionModeTrack);
    assert_eq!(response(&t, 0, 0, false, false).sensor_status, 3);
}

#[test]
fn telem_sensor_status_disabled() {
    let t = in_mode(OrionMode::OrionModeDisabled);
    assert_eq!(response(&t, 0, 0, false, false).sensor_status, 3);
}

#[test]
fn telem_sensor_status_position_settled() {
    let t = in_mode(OrionMode::OrionModePosition);
    assert_eq!(response(&t, 0, 0, true, false).sensor_status, 0);
}

#[test]
fn telem_sensor_status_position_slewing() {
    let t = in_mode(OrionMode::OrionModePosition);
    assert_eq!(response(&t, 0, 0, false, false).sensor_status, 2);
}

#[test]
fn telem_sensor_status_rate_always_slewing() {
    let t = in_mode(OrionMode::OrionModeRate);
    assert_eq!(response(&t, 0, 0, false, false).sensor_status, 2);
    assert_eq!(response(&t, 0, 0, true, false).sensor_status, 2);
}

#[test]
fn telem_frame_ctr_from_system_time() {
    let mut t = GeolocateTelemetryCorePacket::default();
    t.system_time = 9876;
    assert_eq!(response(&t, 0, 0, false, false).frame_ctr, 9876);
}

#[test]
fn telem_gate_sizes_are_20() {
    let r = response(&GeolocateTelemetryCorePacket::default(), 0, 0, false, false);
    assert_eq!(r.gate_x_size, 20);
    assert_eq!(r.gate_y_size, 20);
}

#[test]
fn other_modes_are_breaklock() {
    for mode in [OrionMode::OrionModeFault, OrionMode::OrionModeOther(99)] {
        assert_eq!(response(&in_mode(mode), 0, 0, true, true).sensor_status, 3);
    }
    let t = in_mode(OrionMode::OrionModePositionNoLimits);
    assert_eq!(response(&t, 0, 0, true, false).sensor_status, 0);
}

// ── Commands ──────────────────────────────────────────────────────────────

fn make_cmd(mode: OrionMode, target: [f32; 2]) -> OrionCmdPacket {
    OrionCmdPacket {
        cmd: OrionCmd {
            mode,
            target: target.map(b32),
            stabilized: 0,
            impulse_time: b32(0.0),
        },
    }
}

fn control(cmd: &OrionCmdPacket, camera: i8, zoom: f32) -> SensorControl {
    let scale = f32_of(target_scale(cmd.cmd.mode));
    let scaled = cmd.cmd.target.map(|t| b32((f32_of(t) / scale + 1.0) * 0.5));
    orion_cmd_to_sensor_control(cmd, scaled, camera, b32(zoom))
}

#[test]
fn sc_disabled_mode() {
    let sc = control(&make_cmd(OrionMode::OrionModeDisabled, [0.0, 0.0]), 0, 0.0);
    assert_eq!(sc.sensor_state, 0);
}

#[test]
fn sc_fault_mode() {
    let sc = control(&make_cmd(OrionMode::OrionModeFault, [0.0, 0.0]), 0, 0.0);
    assert_eq!(sc.sensor_state, 0);
}

#[test]
fn sc_position_mode() {
    let sc = control(&make_cmd(OrionMode::OrionModePosition, [PI32 / 2.0, 0.0]), 0, 0.0);
    assert_eq!(sc.sensor_state, 1);
    assert_eq!(sc.track_mode, 0);
    assert!((f32_of(sc.gain) - 0.75).abs() < 1e-5);
    assert!((f32_of(sc.level) - 0.5).abs() < 1e-5);
}

#[test]
fn sc_position_centre_is_half() {
    let sc = control(&make_cmd(OrionMode::OrionModePosition, [0.0, 0.0]), 0, 0.0);
    assert!((f32_of(sc.gain) - 0.5).abs() < 1e-5);
    assert!((f32_of(sc.level) - 0.5).abs() < 1e-5);
}

#[test]
fn sc_position_full_range() {
    let sc_max = control(&make_cmd(OrionMode::OrionModePosition, [PI32, 0.0]), 0, 0.0);
    let sc_min = control(&make_cmd(OrionMode::OrionModePosition, [-PI32, 0.0]), 0, 0.0);
    assert!((f32_of(sc_max.gain) - 1.0).abs() < 1e-5);
    assert!((f32_of(sc_min.gain) - 0.0).abs() < 1e-5);
}

#[test]
fn sc_rate_mode() {
    let max = std::f32::consts::FRAC_PI_3;
    let sc_pos = control(&make_cmd(OrionMode::OrionModeRate, [max, 0.0]), 0, 0.0);
    let sc_neg = control(&make_cmd(OrionMode::OrionModeRate, [-max, 0.0]), 0, 0.0);
    let sc_zero = control(&make_cmd(OrionMode::OrionModeRate, [0.0, 0.0]), 0, 0.0);
    assert_eq!(sc_pos.sensor_state, 1);
    assert_eq!(sc_pos.track_mode, 0x01);
    assert!((f32_of(sc_pos.gain) - 1.0).abs() < 1e-5);
    assert!((f32_of(sc_neg.gain) - 0.0).abs() < 1e-5);
    assert!((f32_of(sc_zero.gain) - 0.5).abs() < 1e-5);
}

#[test]
fn sc_track_mode() {
    let sc = control(&make_cmd(OrionMode::OrionModeTrack, [0.0, 0.0]), 0, 0.0);
    assert_eq!(sc.sensor_state, 2);
}

#[test]
fn sc_geopoint_mode() {
    let sc = control(&make_cmd(OrionMode::OrionModeGeopoint, [0.0, 0.0]), 0, 0.0);
    assert_eq!(sc.sensor_state, 4);
}

#[test]
fn full_scales_are_the_right_numbers() {
    assert_eq!(MAX_SLEW_RATE, std::f32::consts::FRAC_PI_3.to_bits());
    assert_eq!(MAX_ANGLE, PI32.to_bits());
}

#[test]
fn targets_zoom_and_camera_are_cut_off() {
    let sc = control(&make_cmd(OrionMode::OrionModePosition, [9.0, -9.0]), 5, 1.5);
    assert_eq!(f32_of(sc.gain), 1.0);
    assert_eq!(f32_of(sc.level), 0.0);
    assert_eq!(f32_of(sc.ac_coupling), 1.0);
    assert_eq!(sc.sensor_id, 2);
    let sc = control(&make_cmd(OrionMode::OrionModeGeopoint, [0.0, 0.0]), -1, 0.5);
    assert_eq!(f32_of(sc.ac_coupling), 0.0);
    assert_eq!(sc.sensor_id, 0);
    assert_eq!(SensorControl::decode(&sc.encode()), Some(sc));
}

/// A view attached to an entity: offsets (m) and rotation (degrees).
struct ViewControl {
    view_id: u16,
    entity_id: u16,
    offsets_en: [bool; 3],
    angles_en: [bool; 3],
    off_m: [f64; 3],
    roll_deg: f64,
    pitch_deg: f64,
    yaw_deg: f64,
}

fn rotation(roll: f64, pitch: f64, yaw: f64) -> [[f64; 3]; 3] {
    let (sr, cr) = roll.sin_cos();
    let (sp, cp) = pitch.sin_cos();
    let (sy, cy) = yaw.sin_cos();
    [
        [cy * cp, cy * sp * sr - sy * cr, cy * sp * cr + sy * sr],
        [sy * cp, sy * sp * sr + cy * cr, sy * sp * cr - cy * sr],
        [-sp, cp * sr, cp * cr],
    ]
}

/// Rotation of the mount, then of the gimbal, at the pose that a command asks for.
fn view_control(
    cmd: &OrionCmdPacket,
    mount: &GimbalMount,
    view_id: u16,
    entity_id: u16,
) -> ViewControl {
    let pose = orion_cmd_to_view_control(cmd, mount, view_id, entity_id);
    assert_eq!(pose.mount, *mount);
    let [mr, mp, my] = pose.mount.rotation_body_rad.map(f64_of);
    let m = rotation(mr, mp, my);
    let g = rotation(0.0, -(f32_of(pose.tilt) as f64), f32_of(pose.pan) as f64);
    let mut r = [[0.0; 3]; 3];
    for i in 0..3 {
        for j in 0..3 {
            r[i][j] = (0..3).map(|k| m[i][k] * g[k][j]).sum();
        }
    }
    ViewControl {
        view_id: pose.view_id,
        entity_id: pose.entity_id,
        offsets_en: [pose.x_off_en, pose.y_off_en, pose.z_off_en],
        angles_en: [pose.roll_en, pose.pitch_en, pose.yaw_en],
        off_m: pose.mount.translation_body_m.map(f64_of),
        roll_deg: r[2][1].atan2(r[2][2]).to_degrees(),
        pitch_deg: (-r[2][0]).asin().to_degrees(),
        yaw_deg: r[1][0].atan2(r[0][0]).to_degrees(),
    }
}

#[test]
fn view_control_position_mode_zero_mount_passes_pan_tilt_through() {
    let cmd = make_cmd(
        OrionMode::OrionModePosition,
        [30.0_f32.to_radians(), -15.0_f32.to_radians()],
    );
    let vc = view_control(&cmd, &GimbalMount::default(), 1, 1);
    assert_eq!(vc.view_id, 1);
    assert_eq!(vc.entity_id, 1);
    assert_eq!(vc.offsets_en, [true; 3]);
    assert_eq!(vc.angles_en, [true; 3]);
    assert!((vc.yaw_deg - 30.0).abs() < 1e-4, "yaw {}", vc.yaw_deg);
    assert!((vc.pitch_deg - 15.0).abs() < 1e-4, "pitch {}", vc.pitch_deg);
    assert!(vc.roll_deg.abs() < 1e-4, "roll {}", vc.roll_deg);
}

#[test]
fn view_control_mount_yaw_offset_adds_to_pan() {
    let cmd = make_cmd(OrionMode::OrionModePosition, [10.0_f32.to_radians(), 0.0]);
    let mount = GimbalMount {
        translation_body_m: [0.0; 3].map(b64),
        rotation_body_rad: [0.0, 0.0, 3.0_f64.to_radians()].map(b64),
    };
    let vc = view_control(&cmd, &mount, 1, 1);
    assert!((vc.yaw_deg - 13.0).abs() < 1e-4, "yaw {}", vc.yaw_deg);
    assert!(vc.pitch_deg.abs() < 1e-4);
}

#[test]
fn view_control_mount_translation_emitted_in_offsets() {
    let cmd = make_cmd(OrionMode::OrionModePosition, [0.0, 0.0]);
    let mount = GimbalMount {
        translation_body_m: [0.8, -0.1, 0.25].map(b64),
        rotation_body_rad: [0.0; 3].map(b64),
    };
    let vc = view_control(&cmd, &mount, 7, 3);
    assert_eq!(vc.view_id, 7);
    assert_eq!(vc.entity_id, 3);
    assert!((vc.off_m[0] - 0.8).abs() < 1e-6);
    assert!((vc.off_m[1] + 0.1).abs() < 1e-6);
    assert!((vc.off_m[2] - 0.25).abs() < 1e-6);
}

#[test]
fn view_control_non_position_mode_emits_zero_pan_tilt() {
    let cmd = make_cmd(OrionMode::OrionModeRate, [1.0, 0.5]);
    let vc = view_control(&cmd, &GimbalMount::default(), 1, 1);
    assert!(vc.yaw_deg.abs() < 1e-4);
    assert!(vc.pitch_deg.abs() < 1e-4);
}

#[test]
fn view_points_at_position_targets_only() {
    let cmd = make_cmd(OrionMode::OrionModePosition, [0.5, -0.25]);
    let mount = GimbalMount {
        translation_body_m: [0.8, -0.1, 0.25].map(b64),
        rotation_body_rad: [0.0, 0.1, 0.2].map(b64),
    };
    let v = orion_cmd_to_view_control(&cmd, &mount, 7, 3);
    assert_eq!(v.mount, mount);
    assert_eq!(v, view_pose(b32(0.5), b32(-0.25), &mount, 7, 3));
    assert_eq!((v.view_id, v.entity_id), (7, 3));
    assert_eq!((f32_of(v.pan), f32_of(v.tilt)), (0.5, -0.25));
    let cmd = make_cmd(OrionMode::OrionModeRate, [1.0, 0.5]);
    let v = orion_cmd_to_view_control(&cmd, &mount, 1, 1);
    assert_eq!(v.mount, mount);
    assert_eq!((f32_of(v.pan), f32_of(v.tilt)), (0.0, 0.0));
}

// ── Telemetry ─────────────────────────────────────────────────────────────

fn telemetry(resp: &SensorExtendedResponse) -> GeolocateTelemetryCorePacket {
    let rad = PI64 / 180.0;
    sensor_response_to_telemetry(
        resp,
        b64(f64_of(resp.entity_lat) * rad),
        b64(f64_of(resp.entity_lon) * rad),
    )
}

#[test]
fn sensor_response_to_telemetry_basic() {
    let resp = SensorExtendedResponse {
        entity_lat: b64(38.8977),
        entity_lon: b64(-77.0365),
        entity_alt: b64(100.0),
        sensor_status: 0,
        ..SensorExtendedResponse::default()
    };
    let telem = telemetry(&resp);
    assert!((f64_of(telem.pos_alt) - 100.0).abs() < 0.1);
    assert_eq!(telem.mode, OrionMode::OrionModePosition);
    assert_eq!(telem.pos_lat, b64(38.8977 * (PI64 / 180.0)));
}

#[test]
fn sensor_response_tracking_status() {
    let resp = SensorExtendedResponse {
        sensor_status: 1,
        ..SensorExtendedResponse::default()
    };
    assert_eq!(telemetry(&resp).mode, OrionMode::OrionModeTrack);
}

#[test]
fn every_status_has_a_mode() {
    let mode = |sensor_status: u8| {
        telemetry(&SensorExtendedResponse {
            sensor_status,
            ..SensorExtendedResponse::default()
        })
        .mode
    };
    assert_eq!(mode(2), OrionMode::OrionModePosition);
    assert_eq!(mode(3), OrionMode::OrionModeDisabled);
    assert_eq!(mode(5), OrionMode::OrionModeTrack);
}
