//! Settings.

use cigi_trillium::bits::{F32Bits, F64Bits};
use cigi_trillium::config::{
    camera_fov, CameraEntrySection, Config, ConfigFile, FovAngle, GimbalMount, RuntimeMode,
    ZoomCurve, CONTINUOUS_PAN,
};
use cigi_trillium::platform::{PlatformSourceConfig, PlatformState};

fn b32(x: f32) -> F32Bits {
    F32Bits::from_bits(x.to_bits())
}

fn b64(x: f64) -> F64Bits {
    F64Bits::from_bits(x.to_bits())
}

fn f32_of(x: F32Bits) -> f32 {
    f32::from_bits(x.bits)
}

fn f64_of(x: F64Bits) -> f64 {
    f64::from_bits(x.bits)
}

fn fov(deg: f32) -> Option<FovAngle> {
    Some(FovAngle {
        deg: b32(deg),
        rad: b32(deg.to_radians()),
    })
}

fn camera(hw: f32, vw: f32, hn: f32, vn: f32) -> CameraEntrySection {
    CameraEntrySection {
        hfov_wide: fov(hw),
        vfov_wide: fov(vw),
        hfov_narrow: fov(hn),
        vfov_narrow: fov(vn),
    }
}

fn on_curve(c: ZoomCurve) -> (f32, f32) {
    if let Some((h, v)) = c.at_end() {
        return (f32_of(h), f32_of(v));
    }
    let (hw, hn) = (f32_of(c.hfov_wide), f32_of(c.hfov_narrow));
    let (vw, vn) = (f32_of(c.vfov_wide), f32_of(c.vfov_narrow));
    let t = f32_of(c.t);
    (hw * (hn / hw).powf(t), vw * (vn / vw).powf(t))
}

fn fov_at_zoom(cfg: &Config, zoom: f32) -> (f32, f32) {
    on_curve(cfg.fov_at_zoom(b32(zoom)))
}

fn degrees(fov: (F32Bits, F32Bits)) -> (f32, f32) {
    (f32_of(fov.0), f32_of(fov.1))
}

// ── Runtime mode ──────────────────────────────────────────────────────────

fn with_mode(mode: &str) -> Config {
    let mut f = ConfigFile::default();
    f.runtime.mode = Some(mode.to_string());
    Config::from_file(f)
}

#[test]
fn load_runtime_section_simulator() {
    assert_eq!(with_mode("simulator").runtime_mode, RuntimeMode::Simulator);
}

#[test]
fn load_runtime_section_bridge_explicit() {
    assert_eq!(with_mode("bridge").runtime_mode, RuntimeMode::Bridge);
}

#[test]
fn load_missing_runtime_defaults_to_bridge() {
    let mut f = ConfigFile::default();
    f.network.orion_listen_port = Some(9090);
    assert_eq!(Config::from_file(f).runtime_mode, RuntimeMode::Bridge);
}

#[test]
fn load_runtime_unknown_mode_falls_back_to_bridge() {
    assert_eq!(with_mode("zorp").runtime_mode, RuntimeMode::Bridge);
}

#[test]
fn with_runtime_mode_overrides() {
    let cfg = Config::default().with_runtime_mode(RuntimeMode::Simulator);
    assert_eq!(cfg.runtime_mode, RuntimeMode::Simulator);
    let cfg2 = cfg.with_runtime_mode(RuntimeMode::Bridge);
    assert_eq!(cfg2.runtime_mode, RuntimeMode::Bridge);
}

#[test]
fn runtime_mode_parse_case_insensitive() {
    assert_eq!(RuntimeMode::parse("SIMULATOR"), Some(RuntimeMode::Simulator));
    assert_eq!(RuntimeMode::parse("Bridge"), Some(RuntimeMode::Bridge));
    assert_eq!(RuntimeMode::parse("sim"), Some(RuntimeMode::Simulator));
    assert_eq!(RuntimeMode::parse(" bridge "), Some(RuntimeMode::Bridge));
    assert_eq!(RuntimeMode::parse("zorp"), None);
}

#[test]
fn mode_names_are_read_back() {
    for mode in [RuntimeMode::Bridge, RuntimeMode::Simulator] {
        assert_eq!(RuntimeMode::parse(mode.as_str()), Some(mode));
    }
    assert_eq!(RuntimeMode::Bridge.as_str(), "bridge");
    assert_eq!(RuntimeMode::Simulator.as_str(), "simulator");
}

#[test]
fn mode_names_are_trimmed_as_text_is() {
    for c in ['\t', '\n', '\u{b}', '\r', ' ', '\u{85}', '\u{a0}', '\u{2003}', '\u{3000}'] {
        let s = format!("{c}SIM{c}{c}");
        assert_eq!(s.trim(), "SIM");
        assert_eq!(RuntimeMode::parse(&s), Some(RuntimeMode::Simulator));
    }
    for s in ["", "  ", "si m", "simulatör", "\u{200b}sim", "bridge2"] {
        assert_eq!(RuntimeMode::parse(s), None, "{s:?}");
    }
}

// ── Files ─────────────────────────────────────────────────────────────────

#[test]
fn load_missing_file_returns_default() {
    let cfg = Config::from_loaded(None);
    let def = Config::default();
    assert_eq!(cfg.orion_listen_port, def.orion_listen_port);
    assert_eq!(cfg.scene_generator_ip, def.scene_generator_ip);
    assert_eq!(cfg.max_slew_rate, def.max_slew_rate);
}

#[test]
fn empty_file_gives_the_defaults() {
    let cfg = Config::from_loaded(Some(ConfigFile::default()));
    assert_eq!(format!("{cfg:?}"), format!("{:?}", Config::default()));
}

#[test]
fn load_network_section() {
    let mut f = ConfigFile::default();
    f.network.orion_listen_port = Some(9090);
    f.network.scene_generator_ip = Some("192.168.1.50".to_string());
    f.network.scene_generator_cigi_port = Some(18888);
    f.network.cigi_listen_port = Some(18889);
    let cfg = Config::from_file(f);
    assert_eq!(cfg.orion_listen_port, 9090);
    assert_eq!(cfg.scene_generator_ip, "192.168.1.50");
    assert_eq!(cfg.scene_generator_cigi_port, 18888);
    assert_eq!(cfg.cigi_listen_port, 18889);
}

#[test]
fn load_partial_section_keeps_defaults_for_missing_keys() {
    let mut f = ConfigFile::default();
    f.network.orion_listen_port = Some(1234);
    let cfg = Config::from_file(f);
    assert_eq!(cfg.orion_listen_port, 1234);
    assert_eq!(cfg.scene_generator_ip, "127.0.0.1");
}

#[test]
fn load_kinematics_section_converts_deg_to_rad() {
    let mut f = ConfigFile::default();
    f.kinematics.max_slew_rate = Some(b32(120.0_f32.to_radians()));
    f.kinematics.pan_limit = Some(b32(180.0_f32.to_radians()));
    let cfg = Config::from_file(f);
    assert!((f32_of(cfg.max_slew_rate) - 120.0_f32.to_radians()).abs() < 1e-6);
    assert!((f32_of(cfg.pan_limit) - 180.0_f32.to_radians()).abs() < 1e-6);
}

#[test]
fn load_static_platform_section_converts_lat_lon() {
    let mut f = ConfigFile::default();
    f.platform_source.kind = Some("static".to_string());
    f.platform_source.static_.lat_rad = Some(b64(90.0_f64.to_radians()));
    f.platform_source.static_.lon_rad = Some(b64((-45.0_f64).to_radians()));
    f.platform_source.static_.alt_m = Some(b64(1500.0));
    let cfg = Config::from_file(f);
    assert!((f64_of(cfg.platform_lat) - std::f64::consts::FRAC_PI_2).abs() < 1e-10);
    assert!((f64_of(cfg.platform_lon) + std::f64::consts::FRAC_PI_4).abs() < 1e-10);
    assert!((f64_of(cfg.platform_alt) - 1500.0).abs() < 1e-9);
}

#[test]
fn load_mavlink_subtable() {
    let mut f = ConfigFile::default();
    f.platform_source.kind = Some("mavlink".to_string());
    f.platform_source.mavlink.listen_port = Some(14599);
    f.platform_source.mavlink.system_id = Some(255);
    let cfg = Config::from_file(f);
    assert_eq!(cfg.platform_source, "mavlink");
    assert_eq!(cfg.mavlink_listen_port, 14599);
    assert_eq!(cfg.mavlink_system_id, 255_u8);
}

#[test]
fn load_stanag_subtable() {
    let mut f = ConfigFile::default();
    f.platform_source.kind = Some("stanag4586".to_string());
    f.platform_source.stanag4586.listen_port = Some(4599);
    f.platform_source.stanag4586.multicast_group = Some("239.0.0.42".to_string());
    f.platform_source.stanag4586.vehicle_id_filter = Some(-1);
    let cfg = Config::from_file(f);
    assert_eq!(cfg.platform_source, "stanag4586");
    assert_eq!(cfg.stanag_listen_port, 4599);
    assert_eq!(cfg.stanag_multicast_group, "239.0.0.42");
    assert_eq!(cfg.stanag_vehicle_id, -1);
}

#[test]
fn load_gimbal_mount_all_fields() {
    let mut f = ConfigFile::default();
    f.gimbal_mount.fwd_m = Some(b64(0.8));
    f.gimbal_mount.right_m = Some(b64(-0.05));
    f.gimbal_mount.down_m = Some(b64(0.15));
    f.gimbal_mount.roll_rad = Some(b64(0.0));
    f.gimbal_mount.pitch_rad = Some(b64((-2.5_f64).to_radians()));
    f.gimbal_mount.yaw_rad = Some(b64(1.0_f64.to_radians()));
    let m = Config::from_file(f).gimbal_mount;
    assert!((f64_of(m.translation_body_m[0]) - 0.8).abs() < 1e-9);
    assert!((f64_of(m.translation_body_m[1]) + 0.05).abs() < 1e-9);
    assert!((f64_of(m.translation_body_m[2]) - 0.15).abs() < 1e-9);
    assert!((f64_of(m.rotation_body_rad[0])).abs() < 1e-9);
    assert!((f64_of(m.rotation_body_rad[1]) - (-2.5_f64).to_radians()).abs() < 1e-12);
    assert!((f64_of(m.rotation_body_rad[2]) - 1.0_f64.to_radians()).abs() < 1e-12);
}

#[test]
fn load_gimbal_mount_default_is_identity() {
    let cfg = Config::default();
    assert_eq!(cfg.gimbal_mount, GimbalMount::default());
    assert_eq!(cfg.gimbal_mount.translation_body_m.map(f64_of), [0.0; 3]);
    assert_eq!(cfg.gimbal_mount.rotation_body_rad.map(f64_of), [0.0; 3]);
}

#[test]
fn limited_settings_are_cut_off() {
    let mut f = ConfigFile::default();
    f.stabilization.quality = Some(b32(1.5));
    f.track.loss_threshold = Some(b32(-0.5));
    f.track.gate_size_deg = Some(b32(-1.0));
    f.track.target_size_m = Some(b32(-2.0));
    f.terrain.elevation_m = Some(b64(-3.0));
    f.laser.max_range_m = Some(b64(-4.0));
    let cfg = Config::from_file(f);
    assert_eq!(f32_of(cfg.stabilization_quality), 1.0);
    assert_eq!(f32_of(cfg.track_loss_threshold), 0.0);
    assert_eq!(f32_of(cfg.track_gate_size_deg), 0.0);
    assert_eq!(f32_of(cfg.track_target_size_m), 0.0);
    assert_eq!(f64_of(cfg.terrain_elevation_m), 0.0);
    assert_eq!(f64_of(cfg.laser_max_range_m), 0.0);
    let mut f = ConfigFile::default();
    f.stabilization.quality = Some(b32(0.25));
    f.laser.max_range_m = Some(b64(5_000.0));
    let cfg = Config::from_file(f);
    assert_eq!(f32_of(cfg.stabilization_quality), 0.25);
    assert_eq!(f64_of(cfg.laser_max_range_m), 5_000.0);
}

// ── Defaults ──────────────────────────────────────────────────────────────

#[test]
fn default_numbers_are_exact() {
    let c = Config::default();
    let rad = |deg: f32| b32(deg.to_radians());
    assert_eq!(c.max_slew_rate, rad(60.0));
    assert_eq!(c.max_accel, rad(300.0));
    assert_eq!(c.pan_limit, rad(170.0));
    assert_eq!(c.tilt_min, rad(-110.0));
    assert_eq!(c.tilt_max, rad(30.0));
    assert_eq!(c.hfov_wide, rad(30.0));
    assert_eq!(c.vfov_wide, rad(22.5));
    assert_eq!(c.hfov_narrow, rad(3.0));
    assert_eq!(c.vfov_narrow, rad(2.25));
    let table = [
        [30.0, 22.5, 3.0, 2.25],
        [5.0, 3.75, 0.5, 0.375],
        [20.0, 15.0, 2.0, 1.5],
    ];
    for (entry, [hw, vw, hn, vn]) in c.camera_table.iter().zip(table) {
        assert_eq!(Some(entry.hfov_wide), fov(hw));
        assert_eq!(Some(entry.vfov_wide), fov(vw));
        assert_eq!(Some(entry.hfov_narrow), fov(hn));
        assert_eq!(Some(entry.vfov_narrow), fov(vn));
    }
    assert_eq!(c.jitter_freq, b32(10.0));
    assert_eq!(c.jitter_amplitude, rad(0.05));
    assert_eq!(c.noise_floor, rad(0.01));
    assert_eq!(c.jitter_freq_2, b32(47.0));
    assert_eq!(c.jitter_amplitude_2, rad(0.01));
    assert_eq!(c.stabilization_quality, b32(0.0));
    assert!(c.refraction_enabled);
    assert_eq!(c.track_p_gain, b32(3.0));
    assert_eq!(c.track_d_gain, b32(0.5));
    assert_eq!(c.track_loss_threshold, b32(0.45));
    assert_eq!(c.track_gate_size_deg, b32(1.0));
    assert_eq!(c.track_target_size_m, b32(2.0));
    assert_eq!(c.laser_max_range_m, b64(20_000.0));
    assert_eq!(c.gyro_coupling_factor, b32(0.0));
    assert_eq!(c.orion_listen_port, 8008);
    assert_eq!(c.scene_generator_cigi_port, 8100);
    assert_eq!(c.cigi_listen_port, 8101);
    assert_eq!(c.platform_source, "static");
    assert_eq!(c.mavlink_listen_port, 14550);
    assert_eq!(c.stanag_listen_port, 4586);
    assert_eq!(c.stanag_multicast_group, "239.0.0.1");
}

// ── Platform source ───────────────────────────────────────────────────────

#[test]
fn platform_source_config_mavlink_variant() {
    let mut f = ConfigFile::default();
    f.platform_source.kind = Some("mavlink".to_string());
    f.platform_source.mavlink.listen_port = Some(14599);
    f.platform_source.mavlink.system_id = Some(42);
    let cfg = Config::from_file(f);
    let psc = cfg.platform_source_config();
    assert_eq!(psc.kind(), "mavlink");
    match psc {
        PlatformSourceConfig::MavLink(c) => {
            assert_eq!(c.listen_port, 14599);
            assert_eq!(c.system_id, 42);
        }
        _ => panic!("expected MavLink variant"),
    }
    assert_eq!(cfg.initial_platform_state(), PlatformState::default());
}

#[test]
fn platform_source_config_stanag_variant() {
    let mut f = ConfigFile::default();
    f.platform_source.kind = Some("stanag4586".to_string());
    f.platform_source.stanag4586.listen_port = Some(4587);
    f.platform_source.stanag4586.multicast_group = Some("239.0.0.99".to_string());
    f.platform_source.stanag4586.vehicle_id_filter = Some(7);
    let psc = Config::from_file(f).platform_source_config();
    assert_eq!(psc.kind(), "stanag4586");
    match psc {
        PlatformSourceConfig::Stanag4586(c) => {
            assert_eq!(c.listen_port, 4587);
            assert_eq!(c.multicast_group, "239.0.0.99");
            assert_eq!(c.vehicle_id_filter, 7);
        }
        _ => panic!("expected Stanag4586 variant"),
    }
}

fn static_position() -> ConfigFile {
    let mut f = ConfigFile::default();
    f.platform_source.kind = Some("static".to_string());
    f.platform_source.static_.lat_rad = Some(b64(37.5_f64.to_radians()));
    f.platform_source.static_.lon_rad = Some(b64((-122.1_f64).to_radians()));
    f.platform_source.static_.alt_m = Some(b64(1500.0));
    f
}

#[test]
fn platform_source_config_static_variant_from_unknown_kind() {
    for kind in ["static", "carrier pigeon"] {
        let mut f = static_position();
        f.platform_source.kind = Some(kind.to_string());
        let cfg = Config::from_file(f);
        let psc = cfg.platform_source_config();
        assert_eq!(psc.kind(), "static");
        let state = psc.initial_state();
        assert!((f64_of(state.lat_rad) - 37.5_f64.to_radians()).abs() < 1e-10);
        assert!((f64_of(state.lon_rad) + 122.1_f64.to_radians()).abs() < 1e-10);
        assert!((f64_of(state.alt_m) - 1500.0).abs() < 1e-9);
        assert_eq!(cfg.initial_platform_state(), state);
    }
}

// ── Continuous pan ────────────────────────────────────────────────────────

#[test]
fn is_continuous_pan_default_is_false() {
    assert!(!Config::default().is_continuous_pan());
}

#[test]
fn is_continuous_pan_true_at_360_deg() {
    let mut f = ConfigFile::default();
    f.kinematics.pan_limit = Some(b32(360.0_f32.to_radians()));
    assert!(Config::from_file(f).is_continuous_pan());
}

#[test]
fn is_continuous_pan_true_at_exact_threshold() {
    let mut cfg = Config::default();
    cfg.pan_limit = b32(std::f32::consts::TAU - 0.001);
    assert!(cfg.is_continuous_pan());
    assert_eq!(CONTINUOUS_PAN, (std::f32::consts::TAU - 0.001).to_bits());
}

#[test]
fn is_continuous_pan_false_just_below_threshold() {
    let mut cfg = Config::default();
    cfg.pan_limit = b32(std::f32::consts::TAU - 0.002);
    assert!(!cfg.is_continuous_pan());
    cfg.pan_limit = b32(f32::NAN);
    assert!(!cfg.is_continuous_pan());
}

// ── Field of view ─────────────────────────────────────────────────────────

#[test]
fn fov_at_zoom_zero_returns_wide() {
    let cfg = Config::default();
    let (h, v) = fov_at_zoom(&cfg, 0.0);
    assert!((h - f32_of(cfg.hfov_wide)).abs() < 1e-6);
    assert!((v - f32_of(cfg.vfov_wide)).abs() < 1e-6);
}

#[test]
fn fov_at_zoom_one_returns_narrow() {
    let cfg = Config::default();
    let (h, v) = fov_at_zoom(&cfg, 1.0);
    assert!((h - f32_of(cfg.hfov_narrow)).abs() < 1e-6);
    assert!((v - f32_of(cfg.vfov_narrow)).abs() < 1e-6);
}

#[test]
fn fov_at_zoom_half_is_geometric_mean() {
    let cfg = Config::default();
    let (h, v) = fov_at_zoom(&cfg, 0.5);
    let h_geo = (f32_of(cfg.hfov_wide) * f32_of(cfg.hfov_narrow)).sqrt();
    let v_geo = (f32_of(cfg.vfov_wide) * f32_of(cfg.vfov_narrow)).sqrt();
    assert!((h - h_geo).abs() < 1e-6);
    assert!((v - v_geo).abs() < 1e-6);
}

#[test]
fn fov_at_zoom_clamped_below_zero() {
    let cfg = Config::default();
    assert_eq!(fov_at_zoom(&cfg, -0.1), fov_at_zoom(&cfg, 0.0));
}

#[test]
fn fov_at_zoom_clamped_above_one() {
    let cfg = Config::default();
    assert_eq!(fov_at_zoom(&cfg, 1.1), fov_at_zoom(&cfg, 1.0));
}

#[test]
fn camera_fov_index_0() {
    assert_eq!(degrees(Config::default().camera_fov(0)), (30.0, 22.5));
}

#[test]
fn camera_fov_index_1() {
    assert_eq!(degrees(Config::default().camera_fov(1)), (5.0, 3.75));
}

#[test]
fn camera_fov_index_2() {
    assert_eq!(degrees(Config::default().camera_fov(2)), (20.0, 15.0));
}

#[test]
fn camera_fov_out_of_range_falls_back_to_cam0() {
    let cfg = Config::default();
    assert_eq!(cfg.camera_fov(99), cfg.camera_fov(0));
    assert_eq!(cfg.camera_fov(-1), cfg.camera_fov(0));
    assert_eq!(cfg.camera_fov(3), cfg.camera_fov(0));
}

#[test]
fn camera_fov_free_function_uses_defaults() {
    assert_eq!(degrees(camera_fov(0)), (30.0, 22.5));
    assert_eq!(degrees(camera_fov(1)), (5.0, 3.75));
    assert_eq!(degrees(camera_fov(2)), (20.0, 15.0));
}

#[test]
fn per_camera_fov_from_config_file() {
    let mut f = ConfigFile::default();
    f.camera.eo_wide = camera(46.8, 35.1, 1.2, 0.9);
    f.camera.ir = camera(29.0, 21.75, 3.0, 2.25);
    let cfg = Config::from_file(f);
    assert_eq!(degrees(cfg.camera_fov(0)), (46.8, 35.1));
    assert_eq!(degrees(cfg.camera_fov(1)), (5.0, 3.75));
    assert_eq!(degrees(cfg.camera_fov(2)), (29.0, 21.75));
}

#[test]
fn per_camera_zoom_interpolation() {
    let mut f = ConfigFile::default();
    f.camera.ir = camera(29.0, 21.75, 3.0, 2.25);
    let cfg = Config::from_file(f);
    let hfov = |zoom: f32| on_curve(cfg.fov_at_zoom_for_camera(2, b32(zoom))).0.to_radians();
    assert!((hfov(0.0) - 29.0_f32.to_radians()).abs() < 1e-5);
    assert!((hfov(1.0) - 3.0_f32.to_radians()).abs() < 1e-5);
    let expected: f32 = (29.0_f32 * 3.0_f32).sqrt();
    assert!((hfov(0.5) - expected.to_radians()).abs() < 1e-5);
}

#[test]
fn per_camera_eo_wide_section_sets_legacy_hfov_fields() {
    let mut f = ConfigFile::default();
    f.camera.eo_wide = camera(50.0, 37.5, 5.0, 3.75);
    let cfg = Config::from_file(f);
    assert_eq!(degrees(cfg.camera_fov(0)), (50.0, 37.5));
    assert!((f32_of(cfg.hfov_wide) - 50.0_f32.to_radians()).abs() < 1e-5);
}

#[test]
fn partial_camera_section_keeps_the_rest() {
    let mut f = ConfigFile::default();
    f.camera.eo_narrow.vfov_wide = fov(4.0);
    let cfg = Config::from_file(f);
    assert_eq!(degrees(cfg.camera_fov(1)), (5.0, 4.0));
}

#[test]
fn unknown_cameras_zoom_like_the_first() {
    let cfg = Config::default();
    for camera in [-128, -1, 3, 99] {
        for zoom in [0.0, 0.3, 1.0] {
            assert_eq!(
                cfg.fov_at_zoom_for_camera(camera, b32(zoom)),
                cfg.fov_at_zoom_for_camera(0, b32(zoom))
            );
        }
    }
}

#[test]
fn zoom_ends_are_the_table_entries() {
    let cfg = Config::default();
    let at = |zoom: f32| cfg.fov_at_zoom_for_camera(1, b32(zoom)).at_end();
    assert_eq!(at(0.0), Some((b32(5.0), b32(3.75))));
    assert_eq!(at(-0.0), at(0.0));
    assert_eq!(at(-3.0), at(0.0));
    assert_eq!(at(1.0), Some((b32(0.5), b32(0.375))));
    assert_eq!(at(2.0), at(1.0));
    assert_eq!(at(0.5), None);
    assert_eq!(at(f32::NAN), None);
}

#[test]
fn a_curve_that_zooms_out_has_no_known_narrow_end() {
    let mut f = ConfigFile::default();
    f.camera.ir = camera(0.0, 21.75, 3.0, 2.25);
    let cfg = Config::from_file(f);
    assert_eq!(cfg.fov_at_zoom_for_camera(2, b32(1.0)).at_end(), None);
}

#[test]
fn more_zoom_is_further_along() {
    let cfg = Config::default();
    let mut last = f32::INFINITY;
    for i in 0..=20 {
        let (h, _) = on_curve(cfg.fov_at_zoom_for_camera(2, b32(i as f32 / 20.0)));
        assert!(h < last, "{h} after {last}");
        last = h;
    }
}
