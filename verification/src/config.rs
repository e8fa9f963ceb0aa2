//! Runtime configuration.
//!
//! [`Config`] is flat. A configuration file is split into sections, and each of
//! its settings may be missing: [`Config::from_file`] takes the default for it.

use vstd::prelude::*;

use crate::bits::{F32Bits, F64Bits, F32_INFINITY, F32_ONE};
use crate::platform::{
    MavLinkSourceConfig, PlatformSourceConfig, PlatformState, SourceView, Stanag4586SourceConfig,
    StaticSourceConfig,
};
use crate::text::{
    lowered, same_text, same_word, trim_end, trim_start, trimmed, words_ignore_case,
};

verus! {

/// What the program runs.
///
/// `Bridge` connects Orion clients with a CIGI scene generator. `Simulator` runs
/// the local gimbal simulator alone, with no CIGI at all.
#[derive(Debug, Clone, Copy, PartialEq, Eq, Structural)]
pub enum RuntimeMode {
    Bridge,
    Simulator,
}

impl RuntimeMode {
    /// The name of the mode.
    pub open spec fn name(self) -> Seq<char> {
        match self {
            RuntimeMode::Bridge => "bridge"@,
            RuntimeMode::Simulator => "simulator"@,
        }
    }

    /// The mode with a given name: `bridge`, `simulator` or `sim`, in any case and
    /// with any white space around it.
    pub open spec fn spec_parse(s: Seq<char>) -> Option<RuntimeMode> {
        let word = lowered(trimmed(s));
        if word == "bridge"@ {
            Some(RuntimeMode::Bridge)
        } else if word == "simulator"@ || word == "sim"@ {
            Some(RuntimeMode::Simulator)
        } else {
            None
        }
    }

    /// The name of the mode.
    pub fn as_str(self) -> (r: &'static str)
        ensures
            r@ == self.name(),
    {
        match self {
            RuntimeMode::Bridge => "bridge",
            RuntimeMode::Simulator => "simulator",
        }
    }

    /// The mode with a given name, whatever its case; `None` if there is none.
    pub fn parse(s: &str) -> (r: Option<Self>)
        ensures
            r == RuntimeMode::spec_parse(s@),
    {
        if same_word(s, "bridge") {
            Some(RuntimeMode::Bridge)
        } else if same_word(s, "simulator") || same_word(s, "sim") {
            Some(RuntimeMode::Simulator)
        } else {
            None
        }
    }
}

/// An angle in degrees, and the same angle in radians.
#[derive(Debug, Clone, Copy, PartialEq, Eq, Structural)]
pub struct FovAngle {
    pub deg: F32Bits,
    pub rad: F32Bits,
}

/// The field of view of a camera at both ends of its zoom.
#[derive(Debug, Clone, Copy, PartialEq, Eq, Structural)]
pub struct CameraEntry {
    pub hfov_wide: FovAngle,
    pub vfov_wide: FovAngle,
    pub hfov_narrow: FovAngle,
    pub vfov_narrow: FovAngle,
}

/// How the gimbal is installed on the airframe.
#[derive(Debug, Clone, Copy, PartialEq, Eq)]
pub struct GimbalMount {
    /// Offset forward, right and down (m).
    pub translation_body_m: [F64Bits; 3],
    /// Roll, pitch and yaw (rad).
    pub rotation_body_rad: [F64Bits; 3],
}

/// An installation as a value.
#[verifier::ext_equal]
pub struct MountView {
    pub translation_body_m: Seq<F64Bits>,
    pub rotation_body_rad: Seq<F64Bits>,
}

impl View for GimbalMount {
    type V = MountView;

    open spec fn view(&self) -> MountView {
        MountView {
            translation_body_m: self.translation_body_m@,
            rotation_body_rad: self.rotation_body_rad@,
        }
    }
}

/// Neither offset nor rotation.
pub open spec fn identity_mount() -> MountView {
    let zero = F64Bits { bits: 0 };
    MountView {
        translation_body_m: seq![zero, zero, zero],
        rotation_body_rad: seq![zero, zero, zero],
    }
}

impl Default for GimbalMount {
    /// Neither offset nor rotation.
    fn default() -> (r: Self)
        ensures
            r@ == identity_mount(),
    {
        let zero = F64Bits::from_bits(0);
        let r = GimbalMount {
            translation_body_m: [zero, zero, zero],
            rotation_body_rad: [zero, zero, zero],
        };
        proof {
            assert(r@ =~= identity_mount());
        }
        r
    }
}

/// The settings of the program.
#[derive(Debug, Clone)]
pub struct Config {
    /// Bridge or simulator.
    pub runtime_mode: RuntimeMode,
    /// TCP port that accepts Orion connections.
    pub orion_listen_port: u16,
    /// Address of the scene generator.
    pub scene_generator_ip: String,
    /// UDP port of the scene generator.
    pub scene_generator_cigi_port: u16,
    /// UDP port that receives the scene generator's responses.
    pub cigi_listen_port: u16,
    /// Platform latitude (rad).
    pub platform_lat: F64Bits,
    /// Platform longitude (rad).
    pub platform_lon: F64Bits,
    /// Platform altitude (m).
    pub platform_alt: F64Bits,
    /// Platform roll (rad).
    pub platform_roll: F32Bits,
    /// Platform pitch (rad).
    pub platform_pitch: F32Bits,
    /// Platform yaw (rad).
    pub platform_yaw: F32Bits,
    /// Largest slew rate (rad/s). By default 60 degrees/s.
    pub max_slew_rate: F32Bits,
    /// Largest acceleration (rad/s^2). By default 300 degrees/s^2.
    pub max_accel: F32Bits,
    /// Pan limit on either side (rad). By default 170 degrees.
    pub pan_limit: F32Bits,
    /// Lowest tilt (rad). By default -110 degrees.
    pub tilt_min: F32Bits,
    /// Highest tilt (rad). By default 30 degrees.
    pub tilt_max: F32Bits,
    /// Widest horizontal field of view of camera 0 (rad).
    pub hfov_wide: F32Bits,
    /// Widest vertical field of view of camera 0 (rad).
    pub vfov_wide: F32Bits,
    /// Narrowest horizontal field of view of camera 0 (rad).
    pub hfov_narrow: F32Bits,
    /// Narrowest vertical field of view of camera 0 (rad).
    pub vfov_narrow: F32Bits,
    /// Field of view of each camera: daylight wide, daylight narrow, infrared.
    pub camera_table: [CameraEntry; 3],
    /// Jitter frequency (Hz). By default 10.
    pub jitter_freq: F32Bits,
    /// Peak jitter amplitude (rad). By default 0.05 degrees.
    pub jitter_amplitude: F32Bits,
    /// White noise floor (rad). By default 0.01 degrees.
    pub noise_floor: F32Bits,
    /// Frequency of the second resonance (Hz). By default 47.
    pub jitter_freq_2: F32Bits,
    /// Peak amplitude of the second resonance (rad). By default 0.01 degrees.
    pub jitter_amplitude_2: F32Bits,
    /// 0 for perfect inertial stabilization, 1 for a body-mounted gimbal.
    pub stabilization_quality: F32Bits,
    /// How the gimbal is installed on the airframe.
    pub gimbal_mount: GimbalMount,
    /// Correct the line of sight for atmospheric refraction.
    pub refraction_enabled: bool,
    /// Terrain elevation above the ellipsoid (m).
    pub terrain_elevation_m: F64Bits,
    /// Target altitude in geopoint mode (m).
    pub geopoint_alt_m: F64Bits,
    /// Proportional gain of the track controller. By default 3.
    pub track_p_gain: F32Bits,
    /// Derivative gain of the track controller. By default 0.5.
    pub track_d_gain: F32Bits,
    /// Target offset, as a fraction of the field of view, beyond which the track is lost. By default 0.45.
    pub track_loss_threshold: F32Bits,
    /// Angular extent of the tracking gate (degrees). By default 1.
    pub track_gate_size_deg: F32Bits,
    /// Assumed size of the tracked target (m). By default 2.
    pub track_target_size_m: F32Bits,
    /// Largest range of the laser rangefinder (m). By default 20 km.
    pub laser_max_range_m: F64Bits,
    /// Gyroscopic coupling between the axes; 0 for none.
    pub gyro_coupling_factor: F32Bits,
    /// Platform source: `static`, `mavlink` or `stanag4586`.
    pub platform_source: String,
    /// UDP port of MAVLink telemetry.
    pub mavlink_listen_port: u16,
    /// MAVLink system to use; 0 for any.
    pub mavlink_system_id: u8,
    /// UDP port of STANAG 4586 messages.
    pub stanag_listen_port: u16,
    /// Multicast group of STANAG 4586 messages.
    pub stanag_multicast_group: String,
    /// STANAG 4586 vehicle to use; 0 for any.
    pub stanag_vehicle_id: i32,
}

/// The settings as a value.
#[verifier::ext_equal]
pub struct ConfigView {
    pub runtime_mode: RuntimeMode,
    pub orion_listen_port: u16,
    pub scene_generator_ip: Seq<char>,
    pub scene_generator_cigi_port: u16,
    pub cigi_listen_port: u16,
    pub platform_lat: F64Bits,
    pub platform_lon: F64Bits,
    pub platform_alt: F64Bits,
    pub platform_roll: F32Bits,
    pub platform_pitch: F32Bits,
    pub platform_yaw: F32Bits,
    pub max_slew_rate: F32Bits,
    pub max_accel: F32Bits,
    pub pan_limit: F32Bits,
    pub tilt_min: F32Bits,
    pub tilt_max: F32Bits,
    pub hfov_wide: F32Bits,
    pub vfov_wide: F32Bits,
    pub hfov_narrow: F32Bits,
    pub vfov_narrow: F32Bits,
    pub camera_table: Seq<CameraEntry>,
    pub jitter_freq: F32Bits,
    pub jitter_amplitude: F32Bits,
    pub noise_floor: F32Bits,
    pub jitter_freq_2: F32Bits,
    pub jitter_amplitude_2: F32Bits,
    pub stabilization_quality: F32Bits,
    pub gimbal_mount: MountView,
    pub refraction_enabled: bool,
    pub terrain_elevation_m: F64Bits,
    pub geopoint_alt_m: F64Bits,
    pub track_p_gain: F32Bits,
    pub track_d_gain: F32Bits,
    pub track_loss_threshold: F32Bits,
    pub track_gate_size_deg: F32Bits,
    pub track_target_size_m: F32Bits,
    pub laser_max_range_m: F64Bits,
    pub gyro_coupling_factor: F32Bits,
    pub platform_source: Seq<char>,
    pub mavlink_listen_port: u16,
    pub mavlink_system_id: u8,
    pub stanag_listen_port: u16,
    pub stanag_multicast_group: Seq<char>,
    pub stanag_vehicle_id: i32,
}

impl View for Config {
    type V = ConfigView;

    open spec fn view(&self) -> ConfigView {
        ConfigView {
            runtime_mode: self.runtime_mode,
            orion_listen_port: self.orion_listen_port,
            scene_generator_ip: self.scene_generator_ip@,
            scene_generator_cigi_port: self.scene_generator_cigi_port,
            cigi_listen_port: self.cigi_listen_port,
            platform_lat: self.platform_lat,
            platform_lon: self.platform_lon,
            platform_alt: self.platform_alt,
            platform_roll: self.platform_roll,
            platform_pitch: self.platform_pitch,
            platform_yaw: self.platform_yaw,
            max_slew_rate: self.max_slew_rate,
            max_accel: self.max_accel,
            pan_limit: self.pan_limit,
            tilt_min: self.tilt_min,
            tilt_max: self.tilt_max,
            hfov_wide: self.hfov_wide,
            vfov_wide: self.vfov_wide,
            hfov_narrow: self.hfov_narrow,
            vfov_narrow: self.vfov_narrow,
            camera_table: self.camera_table@,
            jitter_freq: self.jitter_freq,
            jitter_amplitude: self.jitter_amplitude,
            noise_floor: self.noise_floor,
            jitter_freq_2: self.jitter_freq_2,
            jitter_amplitude_2: self.jitter_amplitude_2,
            stabilization_quality: self.stabilization_quality,
            gimbal_mount: self.gimbal_mount@,
            refraction_enabled: self.refraction_enabled,
            terrain_elevation_m: self.terrain_elevation_m,
            geopoint_alt_m: self.geopoint_alt_m,
            track_p_gain: self.track_p_gain,
            track_d_gain: self.track_d_gain,
            track_loss_threshold: self.track_loss_threshold,
            track_gate_size_deg: self.track_gate_size_deg,
            track_target_size_m: self.track_target_size_m,
            laser_max_range_m: self.laser_max_range_m,
            gyro_coupling_factor: self.gyro_coupling_factor,
            platform_source: self.platform_source@,
            mavlink_listen_port: self.mavlink_listen_port,
            mavlink_system_id: self.mavlink_system_id,
            stanag_listen_port: self.stanag_listen_port,
            stanag_multicast_group: self.stanag_multicast_group@,
            stanag_vehicle_id: self.stanag_vehicle_id,
        }
    }
}

/// An angle from the patterns of its values in degrees and in radians.
pub open spec fn spec_fov(deg: u32, rad: u32) -> FovAngle {
    FovAngle { deg: F32Bits { bits: deg }, rad: F32Bits { bits: rad } }
}

/// An angle from the patterns of its values in degrees and in radians.
fn fov(deg: u32, rad: u32) -> (r: FovAngle)
    ensures
        r == spec_fov(deg, rad),
{
    FovAngle { deg: F32Bits::from_bits(deg), rad: F32Bits::from_bits(rad) }
}

/// The cameras that are fitted by default.
pub open spec fn default_cameras() -> Seq<CameraEntry> {
    seq![
        // Daylight wide: 30 x 22.5 degrees, zooming to 3 x 2.25.
        CameraEntry {
            hfov_wide: spec_fov(0x41F0_0000, 0x3F06_0A92),
            vfov_wide: spec_fov(0x41B4_0000, 0x3EC9_0FDB),
            hfov_narrow: spec_fov(0x4040_0000, 0x3D56_7750),
            vfov_narrow: spec_fov(0x4010_0000, 0x3D20_D97C),
        },
        // Daylight narrow: 5 x 3.75 degrees, zooming to 0.5 x 0.375.
        CameraEntry {
            hfov_wide: spec_fov(0x40A0_0000, 0x3DB2_B8C2),
            vfov_wide: spec_fov(0x4070_0000, 0x3D86_0A92),
            hfov_narrow: spec_fov(0x3F00_0000, 0x3C0E_FA35),
            vfov_narrow: spec_fov(0x3EC0_0000, 0x3BD6_7750),
        },
        // Infrared: 20 x 15 degrees, zooming to 2 x 1.5.
        CameraEntry {
            hfov_wide: spec_fov(0x41A0_0000, 0x3EB2_B8C2),
            vfov_wide: spec_fov(0x4170_0000, 0x3E86_0A92),
            hfov_narrow: spec_fov(0x4000_0000, 0x3D0E_FA35),
            vfov_narrow: spec_fov(0x3FC0_0000, 0x3CD6_7750),
        },
    ]
}

/// The settings of an empty configuration.
pub open spec fn default_view() -> ConfigView {
    ConfigView {
        runtime_mode: RuntimeMode::Bridge,
        orion_listen_port: 8008,
        scene_generator_ip: "127.0.0.1"@,
        scene_generator_cigi_port: 8100,
        cigi_listen_port: 8101,
        platform_lat: F64Bits { bits: 0 },
        platform_lon: F64Bits { bits: 0 },
        platform_alt: F64Bits { bits: 0 },
        platform_roll: F32Bits { bits: 0 },
        platform_pitch: F32Bits { bits: 0 },
        platform_yaw: F32Bits { bits: 0 },
        max_slew_rate: F32Bits { bits: 0x3F86_0A92 },
        max_accel: F32Bits { bits: 0x40A7_8D36 },
        pan_limit: F32Bits { bits: 0x403D_E44E },
        tilt_min: F32Bits { bits: 0xBFF5_BE0B },
        tilt_max: F32Bits { bits: 0x3F06_0A92 },
        hfov_wide: F32Bits { bits: 0x3F06_0A92 },
        vfov_wide: F32Bits { bits: 0x3EC9_0FDB },
        hfov_narrow: F32Bits { bits: 0x3D56_7750 },
        vfov_narrow: F32Bits { bits: 0x3D20_D97C },
        camera_table: default_cameras(),
        jitter_freq: F32Bits { bits: 0x4120_0000 },
        jitter_amplitude: F32Bits { bits: 0x3A64_C388 },
        noise_floor: F32Bits { bits: 0x3937_02D3 },
        jitter_freq_2: F32Bits { bits: 0x423C_0000 },
        jitter_amplitude_2: F32Bits { bits: 0x3937_02D3 },
        stabilization_quality: F32Bits { bits: 0 },
        gimbal_mount: identity_mount(),
        refraction_enabled: true,
        terrain_elevation_m: F64Bits { bits: 0 },
        geopoint_alt_m: F64Bits { bits: 0 },
        track_p_gain: F32Bits { bits: 0x4040_0000 },
        track_d_gain: F32Bits { bits: 0x3F00_0000 },
        track_loss_threshold: F32Bits { bits: 0x3EE6_6666 },
        track_gate_size_deg: F32Bits { bits: 0x3F80_0000 },
        track_target_size_m: F32Bits { bits: 0x4000_0000 },
        laser_max_range_m: F64Bits { bits: 0x40D3_8800_0000_0000 },
        gyro_coupling_factor: F32Bits { bits: 0 },
        platform_source: "static"@,
        mavlink_listen_port: 14550,
        mavlink_system_id: 0,
        stanag_listen_port: 4586,
        stanag_multicast_group: "239.0.0.1"@,
        stanag_vehicle_id: 0,
    }
}

impl Default for Config {
    fn default() -> (r: Self)
        ensures
            r@ == default_view(),
    {
        let r = Config {
            runtime_mode: RuntimeMode::Bridge,
            orion_listen_port: 8008,
            scene_generator_ip: "127.0.0.1".to_owned(),
            scene_generator_cigi_port: 8100,
            cigi_listen_port: 8101,
            platform_lat: F64Bits { bits: 0 },
            platform_lon: F64Bits { bits: 0 },
            platform_alt: F64Bits { bits: 0 },
            platform_roll: F32Bits { bits: 0 },
            platform_pitch: F32Bits { bits: 0 },
            platform_yaw: F32Bits { bits: 0 },
            max_slew_rate: F32Bits { bits: 0x3F86_0A92 },
            max_accel: F32Bits { bits: 0x40A7_8D36 },
            pan_limit: F32Bits { bits: 0x403D_E44E },
            tilt_min: F32Bits { bits: 0xBFF5_BE0B },
            tilt_max: F32Bits { bits: 0x3F06_0A92 },
            hfov_wide: F32Bits { bits: 0x3F06_0A92 },
            vfov_wide: F32Bits { bits: 0x3EC9_0FDB },
            hfov_narrow: F32Bits { bits: 0x3D56_7750 },
            vfov_narrow: F32Bits { bits: 0x3D20_D97C },
            camera_table: [
                CameraEntry {
                    hfov_wide: fov(0x41F0_0000, 0x3F06_0A92),
                    vfov_wide: fov(0x41B4_0000, 0x3EC9_0FDB),
                    hfov_narrow: fov(0x4040_0000, 0x3D56_7750),
                    vfov_narrow: fov(0x4010_0000, 0x3D20_D97C),
                },
                CameraEntry {
                    hfov_wide: fov(0x40A0_0000, 0x3DB2_B8C2),
                    vfov_wide: fov(0x4070_0000, 0x3D86_0A92),
                    hfov_narrow: fov(0x3F00_0000, 0x3C0E_FA35),
                    vfov_narrow: fov(0x3EC0_0000, 0x3BD6_7750),
                },
                CameraEntry {
                    hfov_wide: fov(0x41A0_0000, 0x3EB2_B8C2),
                    vfov_wide: fov(0x4170_0000, 0x3E86_0A92),
                    hfov_narrow: fov(0x4000_0000, 0x3D0E_FA35),
                    vfov_narrow: fov(0x3FC0_0000, 0x3CD6_7750),
                },
            ],
            jitter_freq: F32Bits { bits: 0x4120_0000 },
            jitter_amplitude: F32Bits { bits: 0x3A64_C388 },
            noise_floor: F32Bits { bits: 0x3937_02D3 },
            jitter_freq_2: F32Bits { bits: 0x423C_0000 },
            jitter_amplitude_2: F32Bits { bits: 0x3937_02D3 },
            stabilization_quality: F32Bits { bits: 0 },
            gimbal_mount: GimbalMount::default(),
            refraction_enabled: true,
            terrain_elevation_m: F64Bits { bits: 0 },
            geopoint_alt_m: F64Bits { bits: 0 },
            track_p_gain: F32Bits { bits: 0x4040_0000 },
            track_d_gain: F32Bits { bits: 0x3F00_0000 },
            track_loss_threshold: F32Bits { bits: 0x3EE6_6666 },
            track_gate_size_deg: F32Bits { bits: 0x3F80_0000 },
            track_target_size_m: F32Bits { bits: 0x4000_0000 },
            laser_max_range_m: F64Bits { bits: 0x40D3_8800_0000_0000 },
            gyro_coupling_factor: F32Bits { bits: 0 },
            platform_source: "static".to_owned(),
            mavlink_listen_port: 14550,
            mavlink_system_id: 0,
            stanag_listen_port: 4586,
            stanag_multicast_group: "239.0.0.1".to_owned(),
            stanag_vehicle_id: 0,
        };
        proof {
            assert(r@ =~= default_view());
        }
        r
    }
}

// ── Configuration file ─────────────────────────────────────────────────

/// Which mode to run in.
#[derive(Debug, Default)]
pub struct RuntimeSection {
    /// `bridge` or `simulator`.
    pub mode: Option<String>,
}

/// Ports and addresses.
#[derive(Debug, Default)]
pub struct NetworkSection {
    pub orion_listen_port: Option<u16>,
    pub scene_generator_ip: Option<String>,
    pub scene_generator_cigi_port: Option<u16>,
    pub cigi_listen_port: Option<u16>,
}

/// MAVLink source.
#[derive(Debug, Default)]
pub struct PlatformMavLinkSection {
    pub listen_port: Option<u16>,
    pub system_id: Option<u8>,
}

/// STANAG 4586 source.
#[derive(Debug, Default)]
pub struct PlatformStanagSection {
    pub listen_port: Option<u16>,
    pub multicast_group: Option<String>,
    pub vehicle_id_filter: Option<i32>,
}

/// Fixed position (rad, m) and attitude (rad).
#[derive(Debug, Default)]
pub struct PlatformStaticSection {
    pub lat_rad: Option<F64Bits>,
    pub lon_rad: Option<F64Bits>,
    pub alt_m: Option<F64Bits>,
    pub roll_rad: Option<F32Bits>,
    pub pitch_rad: Option<F32Bits>,
    pub yaw_rad: Option<F32Bits>,
}

/// Where the platform state comes from.
#[derive(Debug, Default)]
pub struct PlatformSourceSection {
    /// `static`, `mavlink` or `stanag4586`.
    pub kind: Option<String>,
    pub mavlink: PlatformMavLinkSection,
    pub stanag4586: PlatformStanagSection,
    pub static_: PlatformStaticSection,
}

/// Rates (rad/s), accelerations (rad/s^2) and limits (rad).
#[derive(Debug, Default)]
pub struct KinematicsSection {
    pub max_slew_rate: Option<F32Bits>,
    pub max_accel: Option<F32Bits>,
    pub pan_limit: Option<F32Bits>,
    pub tilt_min: Option<F32Bits>,
    pub tilt_max: Option<F32Bits>,
}

/// Field of view of one camera.
#[derive(Debug, Default)]
pub struct CameraEntrySection {
    pub hfov_wide: Option<FovAngle>,
    pub vfov_wide: Option<FovAngle>,
    pub hfov_narrow: Option<FovAngle>,
    pub vfov_narrow: Option<FovAngle>,
}

/// Field of view of all cameras.
#[derive(Debug, Default)]
pub struct CameraSection {
    pub eo_wide: CameraEntrySection,
    pub eo_narrow: CameraEntrySection,
    pub ir: CameraEntrySection,
}

/// Frequencies (Hz) and amplitudes (rad).
#[derive(Debug, Default)]
pub struct VibrationSection {
    pub jitter_freq: Option<F32Bits>,
    pub jitter_amplitude: Option<F32Bits>,
    pub noise_floor: Option<F32Bits>,
    pub jitter_freq_2: Option<F32Bits>,
    pub jitter_amplitude_2: Option<F32Bits>,
}

/// Quality of the stabilization.
#[derive(Debug, Default)]
pub struct StabilizationSection {
    pub quality: Option<F32Bits>,
}

/// Offset (m) and rotation (rad) of the mount.
#[derive(Debug, Default)]
pub struct GimbalMountSection {
    pub fwd_m: Option<F64Bits>,
    pub right_m: Option<F64Bits>,
    pub down_m: Option<F64Bits>,
    pub roll_rad: Option<F64Bits>,
    pub pitch_rad: Option<F64Bits>,
    pub yaw_rad: Option<F64Bits>,
}

/// Atmosphere.
#[derive(Debug, Default)]
pub struct AtmosphereSection {
    pub refraction_enabled: Option<bool>,
}

/// Terrain.
#[derive(Debug, Default)]
pub struct TerrainSection {
    pub elevation_m: Option<F64Bits>,
}

/// Geopoint mode.
#[derive(Debug, Default)]
pub struct GeopointSection {
    pub alt_m: Option<F64Bits>,
}

/// Track mode.
#[derive(Debug, Default)]
pub struct TrackSection {
    pub p_gain: Option<F32Bits>,
    pub d_gain: Option<F32Bits>,
    pub loss_threshold: Option<F32Bits>,
    pub gate_size_deg: Option<F32Bits>,
    pub target_size_m: Option<F32Bits>,
}

/// Laser rangefinder.
#[derive(Debug, Default)]
pub struct LaserSection {
    pub max_range_m: Option<F64Bits>,
}

/// Coupling between the axes.
#[derive(Debug, Default)]
pub struct CouplingSection {
    pub gyro_factor: Option<F32Bits>,
}

/// The settings that a configuration file gives. Whatever it leaves out keeps
/// its default.
#[derive(Debug, Default)]
pub struct ConfigFile {
    pub runtime: RuntimeSection,
    pub network: NetworkSection,
    pub platform_source: PlatformSourceSection,
    pub kinematics: KinematicsSection,
    pub camera: CameraSection,
    pub vibration: VibrationSection,
    pub stabilization: StabilizationSection,
    pub gimbal_mount: GimbalMountSection,
    pub atmosphere: AtmosphereSection,
    pub terrain: TerrainSection,
    pub geopoint: GeopointSection,
    pub track: TrackSection,
    pub laser: LaserSection,
    pub coupling: CouplingSection,
}

/// What is set, or else the default.
pub open spec fn or_default<T>(set: Option<T>, default: T) -> T {
    match set {
        Some(v) => v,
        None => default,
    }
}

/// The text that is set, or else the default.
pub open spec fn or_text(set: Option<String>, default: Seq<char>) -> Seq<char> {
    match set {
        Some(v) => v@,
        None => default,
    }
}

/// What is set, or else the default.
fn pick<T>(set: Option<T>, default: T) -> (r: T)
    ensures
        r == or_default(set, default),
{
    match set {
        Some(v) => v,
        None => default,
    }
}

/// A camera with the settings of its section.
pub open spec fn camera_with(section: CameraEntrySection, default: CameraEntry) -> CameraEntry {
    CameraEntry {
        hfov_wide: or_default(section.hfov_wide, default.hfov_wide),
        vfov_wide: or_default(section.vfov_wide, default.vfov_wide),
        hfov_narrow: or_default(section.hfov_narrow, default.hfov_narrow),
        vfov_narrow: or_default(section.vfov_narrow, default.vfov_narrow),
    }
}

/// Overrides the fields of a camera that its section sets.
pub fn apply_camera_entry(src: &CameraEntrySection, dst: &mut CameraEntry)
    ensures
        *final(dst) == camera_with(*src, *old(dst)),
{
    if let Some(v) = src.hfov_wide {
        dst.hfov_wide = v;
    }
    if let Some(v) = src.vfov_wide {
        dst.vfov_wide = v;
    }
    if let Some(v) = src.hfov_narrow {
        dst.hfov_narrow = v;
    }
    if let Some(v) = src.vfov_narrow {
        dst.vfov_narrow = v;
    }
}

/// A setting between 0 and 1, or else its default.
pub open spec fn unit_or(set: Option<F32Bits>, default: F32Bits) -> F32Bits {
    match set {
        Some(v) => v.spec_clamp(F32Bits { bits: 0 }, F32Bits { bits: F32_ONE }),
        None => default,
    }
}

/// A setting of at least 0, or else its default.
pub open spec fn nonneg32_or(set: Option<F32Bits>, default: F32Bits) -> F32Bits {
    match set {
        Some(v) => v.spec_max(F32Bits { bits: 0 }),
        None => default,
    }
}

/// A setting of at least 0, or else its default.
pub open spec fn nonneg64_or(set: Option<F64Bits>, default: F64Bits) -> F64Bits {
    match set {
        Some(v) => v.spec_max(F64Bits { bits: 0 }),
        None => default,
    }
}

/// A setting between 0 and 1, or else its default.
fn pick_unit(set: Option<F32Bits>, default: F32Bits) -> (r: F32Bits)
    ensures
        r == unit_or(set, default),
{
    match set {
        Some(v) => v.clamp(F32Bits::from_bits(0), F32Bits::from_bits(F32_ONE)),
        None => default,
    }
}

/// A setting of at least 0, or else its default.
fn pick_nonneg32(set: Option<F32Bits>, default: F32Bits) -> (r: F32Bits)
    ensures
        r == nonneg32_or(set, default),
{
    match set {
        Some(v) => v.max(F32Bits::from_bits(0)),
        None => default,
    }
}

/// A setting of at least 0, or else its default.
fn pick_nonneg64(set: Option<F64Bits>, default: F64Bits) -> (r: F64Bits)
    ensures
        r == nonneg64_or(set, default),
{
    match set {
        Some(v) => v.max(F64Bits::from_bits(0)),
        None => default,
    }
}

/// The mode that a file sets; a name that is not known leaves the default.
pub open spec fn mode_or_default(set: Option<String>, default: RuntimeMode) -> RuntimeMode {
    match set {
        Some(name) => or_default(RuntimeMode::spec_parse(name@), default),
        None => default,
    }
}

/// The cameras with the settings of a file.
pub open spec fn cameras_with(f: CameraSection, default: Seq<CameraEntry>) -> Seq<CameraEntry> {
    seq![
        camera_with(f.eo_wide, default[0]),
        camera_with(f.eo_narrow, default[1]),
        camera_with(f.ir, default[2]),
    ]
}

/// The mount with the settings of a file.
pub open spec fn mount_with(f: GimbalMountSection, default: MountView) -> MountView {
    MountView {
        translation_body_m: seq![
            or_default(f.fwd_m, default.translation_body_m[0]),
            or_default(f.right_m, default.translation_body_m[1]),
            or_default(f.down_m, default.translation_body_m[2]),
        ],
        rotation_body_rad: seq![
            or_default(f.roll_rad, default.rotation_body_rad[0]),
            or_default(f.pitch_rad, default.rotation_body_rad[1]),
            or_default(f.yaw_rad, default.rotation_body_rad[2]),
        ],
    }
}

/// The settings of a file, and the defaults for whatever it leaves out. The
/// field of view of camera 0 stands in the table and in fields of its own.
pub open spec fn folded(f: ConfigFile) -> ConfigView {
    let d = default_view();
    let cameras = cameras_with(f.camera, d.camera_table);
    ConfigView {
        runtime_mode: mode_or_default(f.runtime.mode, d.runtime_mode),
        orion_listen_port: or_default(f.network.orion_listen_port, d.orion_listen_port),
        scene_generator_ip: or_text(f.network.scene_generator_ip, d.scene_generator_ip),
        scene_generator_cigi_port: or_default(f.network.scene_generator_cigi_port, d.scene_generator_cigi_port),
        cigi_listen_port: or_default(f.network.cigi_listen_port, d.cigi_listen_port),
        platform_lat: or_default(f.platform_source.static_.lat_rad, d.platform_lat),
        platform_lon: or_default(f.platform_source.static_.lon_rad, d.platform_lon),
        platform_alt: or_default(f.platform_source.static_.alt_m, d.platform_alt),
        platform_roll: or_default(f.platform_source.static_.roll_rad, d.platform_roll),
        platform_pitch: or_default(f.platform_source.static_.pitch_rad, d.platform_pitch),
        platform_yaw: or_default(f.platform_source.static_.yaw_rad, d.platform_yaw),
        max_slew_rate: or_default(f.kinematics.max_slew_rate, d.max_slew_rate),
        max_accel: or_default(f.kinematics.max_accel, d.max_accel),
        pan_limit: or_default(f.kinematics.pan_limit, d.pan_limit),
        tilt_min: or_default(f.kinematics.tilt_min, d.tilt_min),
        tilt_max: or_default(f.kinematics.tilt_max, d.tilt_max),
        hfov_wide: cameras[0].hfov_wide.rad,
        vfov_wide: cameras[0].vfov_wide.rad,
        hfov_narrow: cameras[0].hfov_narrow.rad,
        vfov_narrow: cameras[0].vfov_narrow.rad,
        camera_table: cameras,
        jitter_freq: or_default(f.vibration.jitter_freq, d.jitter_freq),
        jitter_amplitude: or_default(f.vibration.jitter_amplitude, d.jitter_amplitude),
        noise_floor: or_default(f.vibration.noise_floor, d.noise_floor),
        jitter_freq_2: or_default(f.vibration.jitter_freq_2, d.jitter_freq_2),
        jitter_amplitude_2: or_default(f.vibration.jitter_amplitude_2, d.jitter_amplitude_2),
        stabilization_quality: unit_or(f.stabilization.quality, d.stabilization_quality),
        gimbal_mount: mount_with(f.gimbal_mount, d.gimbal_mount),
        refraction_enabled: or_default(f.atmosphere.refraction_enabled, d.refraction_enabled),
        terrain_elevation_m: nonneg64_or(f.terrain.elevation_m, d.terrain_elevation_m),
        geopoint_alt_m: or_default(f.geopoint.alt_m, d.geopoint_alt_m),
        track_p_gain: or_default(f.track.p_gain, d.track_p_gain),
        track_d_gain: or_default(f.track.d_gain, d.track_d_gain),
        track_loss_threshold: unit_or(f.track.loss_threshold, d.track_loss_threshold),
        track_gate_size_deg: nonneg32_or(f.track.gate_size_deg, d.track_gate_size_deg),
        track_target_size_m: nonneg32_or(f.track.target_size_m, d.track_target_size_m),
        laser_max_range_m: nonneg64_or(f.laser.max_range_m, d.laser_max_range_m),
        gyro_coupling_factor: or_default(f.coupling.gyro_factor, d.gyro_coupling_factor),
        platform_source: or_text(f.platform_source.kind, d.platform_source),
        mavlink_listen_port: or_default(f.platform_source.mavlink.listen_port, d.mavlink_listen_port),
        mavlink_system_id: or_default(f.platform_source.mavlink.system_id, d.mavlink_system_id),
        stanag_listen_port: or_default(f.platform_source.stanag4586.listen_port, d.stanag_listen_port),
        stanag_multicast_group: or_text(f.platform_source.stanag4586.multicast_group, d.stanag_multicast_group),
        stanag_vehicle_id: or_default(f.platform_source.stanag4586.vehicle_id_filter, d.stanag_vehicle_id),
    }
}

impl Config {
    /// The settings of a file, and the defaults for whatever it leaves out.
    pub fn from_file(f: ConfigFile) -> (r: Self)
        ensures
            r@ == folded(f),
    {
        let d = Config::default();
        let ghost defaults = d@;
        let mut eo_wide = d.camera_table[0];
        let mut eo_narrow = d.camera_table[1];
        let mut ir = d.camera_table[2];
        apply_camera_entry(&f.camera.eo_wide, &mut eo_wide);
        apply_camera_entry(&f.camera.eo_narrow, &mut eo_narrow);
        apply_camera_entry(&f.camera.ir, &mut ir);
        let runtime_mode = match &f.runtime.mode {
            Some(name) => pick(RuntimeMode::parse(name.as_str()), d.runtime_mode),
            None => d.runtime_mode,
        };
        let m = &f.gimbal_mount;
        let gimbal_mount = GimbalMount {
            translation_body_m: [
                pick(m.fwd_m, d.gimbal_mount.translation_body_m[0]),
                pick(m.right_m, d.gimbal_mount.translation_body_m[1]),
                pick(m.down_m, d.gimbal_mount.translation_body_m[2]),
            ],
            rotation_body_rad: [
                pick(m.roll_rad, d.gimbal_mount.rotation_body_rad[0]),
                pick(m.pitch_rad, d.gimbal_mount.rotation_body_rad[1]),
                pick(m.yaw_rad, d.gimbal_mount.rotation_body_rad[2]),
            ],
        };
        proof {
            assert(gimbal_mount@ =~= mount_with(f.gimbal_mount, defaults.gimbal_mount));
        }
        let ghost file = f;
        let r = Config {
            runtime_mode,
            orion_listen_port: pick(f.network.orion_listen_port, d.orion_listen_port),
            scene_generator_ip: pick(f.network.scene_generator_ip, d.scene_generator_ip),
            scene_generator_cigi_port: pick(f.network.scene_generator_cigi_port, d.scene_generator_cigi_port),
            cigi_listen_port: pick(f.network.cigi_listen_port, d.cigi_listen_port),
            platform_lat: pick(f.platform_source.static_.lat_rad, d.platform_lat),
            platform_lon: pick(f.platform_source.static_.lon_rad, d.platform_lon),
            platform_alt: pick(f.platform_source.static_.alt_m, d.platform_alt),
            platform_roll: pick(f.platform_source.static_.roll_rad, d.platform_roll),
            platform_pitch: pick(f.platform_source.static_.pitch_rad, d.platform_pitch),
            platform_yaw: pick(f.platform_source.static_.yaw_rad, d.platform_yaw),
            max_slew_rate: pick(f.kinematics.max_slew_rate, d.max_slew_rate),
            max_accel: pick(f.kinematics.max_accel, d.max_accel),
            pan_limit: pick(f.kinematics.pan_limit, d.pan_limit),
            tilt_min: pick(f.kinematics.tilt_min, d.tilt_min),
            tilt_max: pick(f.kinematics.tilt_max, d.tilt_max),
            hfov_wide: eo_wide.hfov_wide.rad,
            vfov_wide: eo_wide.vfov_wide.rad,
            hfov_narrow: eo_wide.hfov_narrow.rad,
            vfov_narrow: eo_wide.vfov_narrow.rad,
            camera_table: [eo_wide, eo_narrow, ir],
            jitter_freq: pick(f.vibration.jitter_freq, d.jitter_freq),
            jitter_amplitude: pick(f.vibration.jitter_amplitude, d.jitter_amplitude),
            noise_floor: pick(f.vibration.noise_floor, d.noise_floor),
            jitter_freq_2: pick(f.vibration.jitter_freq_2, d.jitter_freq_2),
            jitter_amplitude_2: pick(f.vibration.jitter_amplitude_2, d.jitter_amplitude_2),
            stabilization_quality: pick_unit(f.stabilization.quality, d.stabilization_quality),
            gimbal_mount,
            refraction_enabled: pick(f.atmosphere.refraction_enabled, d.refraction_enabled),
            terrain_elevation_m: pick_nonneg64(f.terrain.elevation_m, d.terrain_elevation_m),
            geopoint_alt_m: pick(f.geopoint.alt_m, d.geopoint_alt_m),
            track_p_gain: pick(f.track.p_gain, d.track_p_gain),
            track_d_gain: pick(f.track.d_gain, d.track_d_gain),
            track_loss_threshold: pick_unit(f.track.loss_threshold, d.track_loss_threshold),
            track_gate_size_deg: pick_nonneg32(f.track.gate_size_deg, d.track_gate_size_deg),
            track_target_size_m: pick_nonneg32(f.track.target_size_m, d.track_target_size_m),
            laser_max_range_m: pick_nonneg64(f.laser.max_range_m, d.laser_max_range_m),
            gyro_coupling_factor: pick(f.coupling.gyro_factor, d.gyro_coupling_factor),
            platform_source: pick(f.platform_source.kind, d.platform_source),
            mavlink_listen_port: pick(f.platform_source.mavlink.listen_port, d.mavlink_listen_port),
            mavlink_system_id: pick(f.platform_source.mavlink.system_id, d.mavlink_system_id),
            stanag_listen_port: pick(f.platform_source.stanag4586.listen_port, d.stanag_listen_port),
            stanag_multicast_group: pick(f.platform_source.stanag4586.multicast_group, d.stanag_multicast_group),
            stanag_vehicle_id: pick(f.platform_source.stanag4586.vehicle_id_filter, d.stanag_vehicle_id),
        };
        proof {
            assert(r.camera_table@ =~= cameras_with(file.camera, defaults.camera_table));
            assert(r@ =~= folded(file));
        }
        r
    }
}

/// A zoom curve between two fields of view. The angle at the wide end times
/// `narrow / wide` to the power `t` is the angle at `t`.
#[derive(Debug, Clone, Copy, PartialEq, Eq, Structural)]
pub struct ZoomCurve {
    pub hfov_wide: F32Bits,
    pub hfov_narrow: F32Bits,
    pub vfov_wide: F32Bits,
    pub vfov_narrow: F32Bits,
    /// Place on the curve, from 0 (wide) to 1 (narrow).
    pub t: F32Bits,
}

/// Zooming leads from `wide` to `narrow`: both are positive, and the narrow end is
/// no wider than the wide end.
pub open spec fn zooms_in(wide: F32Bits, narrow: F32Bits) -> bool {
    &&& (F32Bits { bits: 0 }).below(narrow)
    &&& narrow.at_most(wide)
    &&& wide.below(F32Bits { bits: F32_INFINITY })
}

/// Whether zooming leads from `wide` to `narrow`.
fn is_zoom_range(wide: F32Bits, narrow: F32Bits) -> (r: bool)
    ensures
        r == zooms_in(wide, narrow),
{
    F32Bits::from_bits(0).lt(narrow) && narrow.le(wide) && wide.lt(
        F32Bits::from_bits(F32_INFINITY),
    )
}

impl ZoomCurve {
    /// The field of view, horizontal and vertical, where the curve needs no
    /// arithmetic: at the wide end, and at the narrow end of a curve that zooms in.
    pub open spec fn end(self) -> Option<(F32Bits, F32Bits)> {
        let one = F32Bits { bits: F32_ONE };
        if self.t.rank() == 0 && !self.t.nan() {
            Some((self.hfov_wide, self.vfov_wide))
        } else if self.t == one && zooms_in(self.hfov_wide, self.hfov_narrow) && zooms_in(
            self.vfov_wide,
            self.vfov_narrow,
        ) {
            Some((self.hfov_narrow, self.vfov_narrow))
        } else {
            None
        }
    }

    /// The field of view at an end of the curve; `None` between the ends.
    pub fn at_end(&self) -> (r: Option<(F32Bits, F32Bits)>)
        ensures
            r == self.end(),
    {
        if self.t.eq_value(F32Bits::from_bits(0)) {
            Some((self.hfov_wide, self.vfov_wide))
        } else if self.t.bits == F32_ONE && is_zoom_range(self.hfov_wide, self.hfov_narrow)
            && is_zoom_range(self.vfov_wide, self.vfov_narrow) {
            Some((self.hfov_narrow, self.vfov_narrow))
        } else {
            None
        }
    }
}

/// A zoom level between 0 and 1.
pub open spec fn unit_clamped(zoom: F32Bits) -> F32Bits {
    zoom.spec_clamp(F32Bits { bits: 0 }, F32Bits { bits: F32_ONE })
}

/// The table entry of camera `index`; entry 0 where there is none.
pub open spec fn entry_of(table: Seq<CameraEntry>, index: i8) -> CameraEntry {
    if 0 <= index < table.len() {
        table[index as int]
    } else {
        table[0]
    }
}

/// The zoom curve of camera `index` (degrees) at `zoom`.
pub open spec fn camera_curve(
    table: Seq<CameraEntry>,
    index: i8,
    zoom: F32Bits,
) -> ZoomCurve {
    let entry = entry_of(table, index);
    ZoomCurve {
        hfov_wide: entry.hfov_wide.deg,
        hfov_narrow: entry.hfov_narrow.deg,
        vfov_wide: entry.vfov_wide.deg,
        vfov_narrow: entry.vfov_narrow.deg,
        t: unit_clamped(zoom),
    }
}

/// The smallest pan limit (rad) at which pan has no stop: a full turn less 0.001.
pub const CONTINUOUS_PAN: u32 = 0x40C9_07AA;

/// The zoom curve of the fields of view in front of the camera table (rad).
pub open spec fn first_curve(c: ConfigView, zoom: F32Bits) -> ZoomCurve {
    ZoomCurve {
        hfov_wide: c.hfov_wide,
        hfov_narrow: c.hfov_narrow,
        vfov_wide: c.vfov_wide,
        vfov_narrow: c.vfov_narrow,
        t: unit_clamped(zoom),
    }
}

/// The wide field of view of a camera (degrees): horizontal and vertical.
pub open spec fn wide_fov(table: Seq<CameraEntry>, index: i8) -> (F32Bits, F32Bits) {
    (entry_of(table, index).hfov_wide.deg, entry_of(table, index).vfov_wide.deg)
}

/// The settings with another mode.
pub open spec fn in_mode(c: ConfigView, mode: RuntimeMode) -> ConfigView {
    ConfigView { runtime_mode: mode, ..c }
}

impl Config {
    /// The settings after a file was looked for: those of the file, or the
    /// defaults where it is missing or cannot be read.
    pub fn from_loaded(file: Option<ConfigFile>) -> (r: Self)
        ensures
            r@ == (match file {
                Some(f) => folded(f),
                None => default_view(),
            }),
    {
        match file {
            Some(f) => Config::from_file(f),
            None => Config::default(),
        }
    }

    /// The platform source that the settings select.
    pub fn platform_source_config(&self) -> (r: PlatformSourceConfig)
        ensures
            r@ == selected_source(self@),
    {
        if same_text(self.platform_source.as_str(), "mavlink") {
            PlatformSourceConfig::MavLink(
                MavLinkSourceConfig {
                    listen_port: self.mavlink_listen_port,
                    system_id: self.mavlink_system_id,
                },
            )
        } else if same_text(self.platform_source.as_str(), "stanag4586") {
            PlatformSourceConfig::Stanag4586(
                Stanag4586SourceConfig {
                    listen_port: self.stanag_listen_port,
                    multicast_group: self.stanag_multicast_group.clone(),
                    vehicle_id_filter: self.stanag_vehicle_id,
                },
            )
        } else {
            PlatformSourceConfig::Static(
                StaticSourceConfig {
                    lat_rad: self.platform_lat,
                    lon_rad: self.platform_lon,
                    alt_m: self.platform_alt,
                    roll_rad: self.platform_roll,
                    pitch_rad: self.platform_pitch,
                    yaw_rad: self.platform_yaw,
                },
            )
        }
    }

    /// The platform state before any update.
    pub fn initial_platform_state(&self) -> (r: PlatformState)
        ensures
            r == selected_source(self@).initial_state(),
    {
        self.platform_source_config().initial_state()
    }

    /// The same settings in another mode.
    pub fn with_runtime_mode(self, mode: RuntimeMode) -> (r: Self)
        ensures
            r@ == in_mode(self@, mode),
            r@ == (ConfigView { runtime_mode: mode, ..self@ }),
    {
        let mut r = self;
        r.runtime_mode = mode;
        r
    }

    /// Whether pan turns without a stop.
    pub fn is_continuous_pan(&self) -> (r: bool)
        ensures
            r == (F32Bits { bits: CONTINUOUS_PAN }).at_most(self.pan_limit),
    {
        F32Bits::from_bits(CONTINUOUS_PAN).le(self.pan_limit)
    }

    /// The zoom curve of camera 0 (rad) at `zoom`, limited to 0 (wide) up to 1
    /// (narrow).
    pub fn fov_at_zoom(&self, zoom: F32Bits) -> (r: ZoomCurve)
        ensures
            r == first_curve(self@, zoom),
            r == (ZoomCurve {
                hfov_wide: self.hfov_wide,
                hfov_narrow: self.hfov_narrow,
                vfov_wide: self.vfov_wide,
                vfov_narrow: self.vfov_narrow,
                t: unit_clamped(zoom),
            }),
    {
        ZoomCurve {
            hfov_wide: self.hfov_wide,
            hfov_narrow: self.hfov_narrow,
            vfov_wide: self.vfov_wide,
            vfov_narrow: self.vfov_narrow,
            t: zoom.clamp(F32Bits::from_bits(0), F32Bits::from_bits(F32_ONE)),
        }
    }

    /// The table entry of camera `index`; entry 0 where there is none.
    pub fn camera_entry(&self, index: i8) -> (r: CameraEntry)
        ensures
            r == entry_of(self@.camera_table, index),
    {
        if 0 <= index && index < 3 {
            self.camera_table[index as usize]
        } else {
            self.camera_table[0]
        }
    }

    /// The widest field of view of camera `index`, horizontal and vertical, in
    /// degrees.
    pub fn camera_fov(&self, index: i8) -> (r: (F32Bits, F32Bits))
        ensures
            r == wide_fov(self@.camera_table, index),
            r == (
                entry_of(self@.camera_table, index).hfov_wide.deg,
                entry_of(self@.camera_table, index).vfov_wide.deg,
            ),
    {
        let entry = self.camera_entry(index);
        (entry.hfov_wide.deg, entry.vfov_wide.deg)
    }

    /// The zoom curve of a camera (degrees) at `zoom`, limited to 0 (wide) up to 1
    /// (narrow).
    pub fn fov_at_zoom_for_camera(&self, camera: i8, zoom: F32Bits) -> (r: ZoomCurve)
        ensures
            r == camera_curve(self@.camera_table, camera, zoom),
    {
        let entry = self.camera_entry(camera);
        ZoomCurve {
            hfov_wide: entry.hfov_wide.deg,
            hfov_narrow: entry.hfov_narrow.deg,
            vfov_wide: entry.vfov_wide.deg,
            vfov_narrow: entry.vfov_narrow.deg,
            t: zoom.clamp(F32Bits::from_bits(0), F32Bits::from_bits(F32_ONE)),
        }
    }
}

/// The source that the settings select: MAVLink or STANAG 4586 by name, and the
/// fixed position under any other name.
pub open spec fn selected_source(c: ConfigView) -> SourceView {
    if c.platform_source == "mavlink"@ {
        SourceView::MavLink(
            MavLinkSourceConfig {
                listen_port: c.mavlink_listen_port,
                system_id: c.mavlink_system_id,
            },
        )
    } else if c.platform_source == "stanag4586"@ {
        SourceView::Stanag4586 {
            listen_port: c.stanag_listen_port,
            multicast_group: c.stanag_multicast_group,
            vehicle_id_filter: c.stanag_vehicle_id,
        }
    } else {
        SourceView::Static(
            StaticSourceConfig {
                lat_rad: c.platform_lat,
                lon_rad: c.platform_lon,
                alt_m: c.platform_alt,
                roll_rad: c.platform_roll,
                pitch_rad: c.platform_pitch,
                yaw_rad: c.platform_yaw,
            },
        )
    }
}

/// The widest field of view of camera `index` in the default settings, in degrees.
pub fn camera_fov(index: i8) -> (r: (F32Bits, F32Bits))
    ensures
        r == wide_fov(default_cameras(), index),
        r == (
            entry_of(default_cameras(), index).hfov_wide.deg,
            entry_of(default_cameras(), index).vfov_wide.deg,
        ),
{
    Config::default().camera_fov(index)
}

// ── Laws ───────────────────────────────────────────────────────────────

/// A file that sets nothing gives the defaults.
pub proof fn empty_file_gives_defaults(f: ConfigFile)
    requires
        f.runtime.mode is None,
        f.network.orion_listen_port is None,
        f.network.scene_generator_ip is None,
        f.network.scene_generator_cigi_port is None,
        f.network.cigi_listen_port is None,
        f.platform_source.kind is None,
        f.platform_source.mavlink.listen_port is None,
        f.platform_source.mavlink.system_id is None,
        f.platform_source.stanag4586.listen_port is None,
        f.platform_source.stanag4586.multicast_group is None,
        f.platform_source.stanag4586.vehicle_id_filter is None,
        f.platform_source.static_.lat_rad is None,
        f.platform_source.static_.lon_rad is None,
        f.platform_source.static_.alt_m is None,
        f.platform_source.static_.roll_rad is None,
        f.platform_source.static_.pitch_rad is None,
        f.platform_source.static_.yaw_rad is None,
        f.kinematics.max_slew_rate is None,
        f.kinematics.max_accel is None,
        f.kinematics.pan_limit is None,
        f.kinematics.tilt_min is None,
        f.kinematics.tilt_max is None,
        sets_nothing(f.camera.eo_wide),
        sets_nothing(f.camera.eo_narrow),
        sets_nothing(f.camera.ir),
        f.vibration.jitter_freq is None,
        f.vibration.jitter_amplitude is None,
        f.vibration.noise_floor is None,
        f.vibration.jitter_freq_2 is None,
        f.vibration.jitter_amplitude_2 is None,
        f.stabilization.quality is None,
        f.gimbal_mount.fwd_m is None,
        f.gimbal_mount.right_m is None,
        f.gimbal_mount.down_m is None,
        f.gimbal_mount.roll_rad is None,
        f.gimbal_mount.pitch_rad is None,
        f.gimbal_mount.yaw_rad is None,
        f.atmosphere.refraction_enabled is None,
        f.terrain.elevation_m is None,
        f.geopoint.alt_m is None,
        f.track.p_gain is None,
        f.track.d_gain is None,
        f.track.loss_threshold is None,
        f.track.gate_size_deg is None,
        f.track.target_size_m is None,
        f.laser.max_range_m is None,
        f.coupling.gyro_factor is None,
    ensures
        folded(f) == default_view(),
{
    assert(cameras_with(f.camera, default_cameras()) =~= default_cameras());
    assert(folded(f) =~= default_view());
}

/// A section that leaves its camera as it is.
pub open spec fn sets_nothing(section: CameraEntrySection) -> bool {
    &&& section.hfov_wide is None
    &&& section.vfov_wide is None
    &&& section.hfov_narrow is None
    &&& section.vfov_narrow is None
}

/// Whatever numbers a file holds, the limited settings stay within their limits.
pub proof fn limited_settings_in_range(f: ConfigFile)
    requires
        f.stabilization.quality matches Some(v) ==> !v.nan(),
        f.track.loss_threshold matches Some(v) ==> !v.nan(),
    ensures
        (F32Bits { bits: 0 }).at_most(folded(f).stabilization_quality),
        folded(f).stabilization_quality.at_most(F32Bits { bits: F32_ONE }),
        (F32Bits { bits: 0 }).at_most(folded(f).track_loss_threshold),
        folded(f).track_loss_threshold.at_most(F32Bits { bits: F32_ONE }),
        (F32Bits { bits: 0 }).at_most(folded(f).track_gate_size_deg),
        (F32Bits { bits: 0 }).at_most(folded(f).track_target_size_m),
        (F64Bits { bits: 0 }).at_most(folded(f).terrain_elevation_m),
        (F64Bits { bits: 0 }).at_most(folded(f).laser_max_range_m),
{
}

/// A camera that is not fitted zooms like camera 0.
pub proof fn unknown_camera_zooms_like_first(table: Seq<CameraEntry>, index: i8, zoom: F32Bits)
    requires
        !(0 <= index < table.len()),
    ensures
        camera_curve(table, index, zoom) == camera_curve(table, 0, zoom),
{
}

/// Zoom beyond an end of the range is the zoom at that end.
pub proof fn zoom_limited(table: Seq<CameraEntry>, index: i8, zoom: F32Bits)
    ensures
        camera_curve(table, index, zoom) == camera_curve(table, index, unit_clamped(zoom)),
        zoom.below(F32Bits { bits: 0 }) ==> camera_curve(table, index, zoom) == camera_curve(
            table,
            index,
            F32Bits { bits: 0 },
        ),
        (F32Bits { bits: F32_ONE }).below(zoom) ==> camera_curve(table, index, zoom)
            == camera_curve(table, index, F32Bits { bits: F32_ONE }),
{
}

/// The ends of a camera's zoom curve are its wide and its narrow field of view.
pub proof fn zoom_ends(table: Seq<CameraEntry>, index: i8)
    requires
        zooms_in(entry_of(table, index).hfov_wide.deg, entry_of(table, index).hfov_narrow.deg),
        zooms_in(entry_of(table, index).vfov_wide.deg, entry_of(table, index).vfov_narrow.deg),
    ensures
        camera_curve(table, index, F32Bits { bits: 0 }).end() == Some(
            (entry_of(table, index).hfov_wide.deg, entry_of(table, index).vfov_wide.deg),
        ),
        camera_curve(table, index, F32Bits { bits: F32_ONE }).end() == Some(
            (entry_of(table, index).hfov_narrow.deg, entry_of(table, index).vfov_narrow.deg),
        ),
{
}

/// `between` leads from `wide` at 0 to `narrow` at 1 without rising.
pub open spec fn falls(
    between: spec_fn(F32Bits, F32Bits, F32Bits) -> F32Bits,
    wide: F32Bits,
    narrow: F32Bits,
) -> bool {
    &&& forall|t: F32Bits|
        on_curve(t) ==> narrow.at_most(#[trigger] between(wide, narrow, t)) && between(
            wide,
            narrow,
            t,
        ).at_most(wide)
    &&& forall|t: F32Bits, u: F32Bits|
        on_curve(t) && on_curve(u) && t.at_most(u) ==> (#[trigger] between(
            wide,
            narrow,
            u,
        )).at_most(#[trigger] between(wide, narrow, t))
}

/// A place on a zoom curve.
pub open spec fn on_curve(t: F32Bits) -> bool {
    (F32Bits { bits: 0 }).at_most(t) && t.at_most(F32Bits { bits: F32_ONE })
}

impl ZoomCurve {
    /// The field of view, where `between` is the curve between its ends.
    pub open spec fn fov(
        self,
        between: spec_fn(F32Bits, F32Bits, F32Bits) -> F32Bits,
    ) -> (F32Bits, F32Bits) {
        match self.end() {
            Some(fov) => fov,
            None => (
                between(self.hfov_wide, self.hfov_narrow, self.t),
                between(self.vfov_wide, self.vfov_narrow, self.t),
            ),
        }
    }
}

/// More zoom never widens the field of view, if the curve between the ends does not
/// rise.
pub proof fn zoom_never_widens(
    table: Seq<CameraEntry>,
    index: i8,
    less: F32Bits,
    more: F32Bits,
    between: spec_fn(F32Bits, F32Bits, F32Bits) -> F32Bits,
)
    requires
        less.at_most(more),
        zooms_in(entry_of(table, index).hfov_wide.deg, entry_of(table, index).hfov_narrow.deg),
        zooms_in(entry_of(table, index).vfov_wide.deg, entry_of(table, index).vfov_narrow.deg),
        falls(
            between,
            entry_of(table, index).hfov_wide.deg,
            entry_of(table, index).hfov_narrow.deg,
        ),
        falls(
            between,
            entry_of(table, index).vfov_wide.deg,
            entry_of(table, index).vfov_narrow.deg,
        ),
    ensures
        camera_curve(table, index, more).fov(between).0.at_most(
            camera_curve(table, index, less).fov(between).0,
        ),
        camera_curve(table, index, more).fov(between).1.at_most(
            camera_curve(table, index, less).fov(between).1,
        ),
{
}

/// More zoom is further along the curve, between the same ends.
pub proof fn zoom_moves_along(table: Seq<CameraEntry>, index: i8, less: F32Bits, more: F32Bits)
    requires
        less.at_most(more),
    ensures
        camera_curve(table, index, less).t.at_most(camera_curve(table, index, more).t),
        (F32Bits { bits: 0 }).at_most(camera_curve(table, index, less).t),
        camera_curve(table, index, more).t.at_most(F32Bits { bits: F32_ONE }),
        camera_curve(table, index, less) == (ZoomCurve {
            t: unit_clamped(less),
            ..camera_curve(table, index, more)
        }),
{
}

/// The name of a mode is read as that mode.
pub proof fn mode_names_read_back(mode: RuntimeMode)
    ensures
        RuntimeMode::spec_parse(mode.name()) == Some(mode),
{
    reveal_strlit("bridge");
    reveal_strlit("simulator");
    reveal_strlit("sim");
    let name = mode.name();
    assert(trim_start(name) == name);
    assert(trim_end(name) == name);
    assert(lowered(name) =~= name);
}

/// A mode is read from its name whatever the case of its letters.
pub proof fn mode_names_ignore_case(a: Seq<char>, b: Seq<char>)
    requires
        lowered(a) == lowered(b),
    ensures
        RuntimeMode::spec_parse(a) == RuntimeMode::spec_parse(b),
{
    words_ignore_case(a, b);
}

/// A setting of the network or the platform source that is in the file is taken as it is
/// from its own key, and one that is not has its default.
pub proof fn sources_come_from_their_keys(f: ConfigFile)
    ensures
        f.network.orion_listen_port matches Some(v) ==> folded(f).orion_listen_port == v,
        f.network.orion_listen_port is None ==> folded(f).orion_listen_port == default_view().orion_listen_port,
        f.network.scene_generator_cigi_port matches Some(v) ==> folded(f).scene_generator_cigi_port == v,
        f.network.scene_generator_cigi_port is None ==> folded(f).scene_generator_cigi_port == default_view().scene_generator_cigi_port,
        f.network.cigi_listen_port matches Some(v) ==> folded(f).cigi_listen_port == v,
        f.network.cigi_listen_port is None ==> folded(f).cigi_listen_port == default_view().cigi_listen_port,
        f.platform_source.static_.lat_rad matches Some(v) ==> folded(f).platform_lat == v,
        f.platform_source.static_.lat_rad is None ==> folded(f).platform_lat == default_view().platform_lat,
        f.platform_source.static_.lon_rad matches Some(v) ==> folded(f).platform_lon == v,
        f.platform_source.static_.lon_rad is None ==> folded(f).platform_lon == default_view().platform_lon,
        f.platform_source.static_.alt_m matches Some(v) ==> folded(f).platform_alt == v,
        f.platform_source.static_.alt_m is None ==> folded(f).platform_alt == default_view().platform_alt,
        f.platform_source.static_.roll_rad matches Some(v) ==> folded(f).platform_roll == v,
        f.platform_source.static_.roll_rad is None ==> folded(f).platform_roll == default_view().platform_roll,
        f.platform_source.static_.pitch_rad matches Some(v) ==> folded(f).platform_pitch == v,
        f.platform_source.static_.pitch_rad is None ==> folded(f).platform_pitch == default_view().platform_pitch,
        f.platform_source.static_.yaw_rad matches Some(v) ==> folded(f).platform_yaw == v,
        f.platform_source.static_.yaw_rad is None ==> folded(f).platform_yaw == default_view().platform_yaw,
        f.platform_source.mavlink.listen_port matches Some(v) ==> folded(f).mavlink_listen_port == v,
        f.platform_source.mavlink.listen_port is None ==> folded(f).mavlink_listen_port == default_view().mavlink_listen_port,
        f.platform_source.mavlink.system_id matches Some(v) ==> folded(f).mavlink_system_id == v,
        f.platform_source.mavlink.system_id is None ==> folded(f).mavlink_system_id == default_view().mavlink_system_id,
        f.platform_source.stanag4586.listen_port matches Some(v) ==> folded(f).stanag_listen_port == v,
        f.platform_source.stanag4586.listen_port is None ==> folded(f).stanag_listen_port == default_view().stanag_listen_port,
        f.platform_source.stanag4586.vehicle_id_filter matches Some(v) ==> folded(f).stanag_vehicle_id == v,
        f.platform_source.stanag4586.vehicle_id_filter is None ==> folded(f).stanag_vehicle_id == default_view().stanag_vehicle_id,
        f.network.scene_generator_ip matches Some(v) ==> folded(f).scene_generator_ip == v@,
        f.network.scene_generator_ip is None ==> folded(f).scene_generator_ip == default_view().scene_generator_ip,
        f.platform_source.kind matches Some(v) ==> folded(f).platform_source == v@,
        f.platform_source.kind is None ==> folded(f).platform_source == default_view().platform_source,
        f.platform_source.stanag4586.multicast_group matches Some(v) ==> folded(f).stanag_multicast_group == v@,
        f.platform_source.stanag4586.multicast_group is None ==> folded(f).stanag_multicast_group == default_view().stanag_multicast_group,
{
}

/// A setting of the gimbal that is in the file is taken as it is from its own key, and
/// one that is not has its default.
pub proof fn gimbal_settings_come_from_their_keys(f: ConfigFile)
    ensures
        f.kinematics.max_slew_rate matches Some(v) ==> folded(f).max_slew_rate == v,
        f.kinematics.max_slew_rate is None ==> folded(f).max_slew_rate == default_view().max_slew_rate,
        f.kinematics.max_accel matches Some(v) ==> folded(f).max_accel == v,
        f.kinematics.max_accel is None ==> folded(f).max_accel == default_view().max_accel,
        f.kinematics.pan_limit matches Some(v) ==> folded(f).pan_limit == v,
        f.kinematics.pan_limit is None ==> folded(f).pan_limit == default_view().pan_limit,
        f.kinematics.tilt_min matches Some(v) ==> folded(f).tilt_min == v,
        f.kinematics.tilt_min is None ==> folded(f).tilt_min == default_view().tilt_min,
        f.kinematics.tilt_max matches Some(v) ==> folded(f).tilt_max == v,
        f.kinematics.tilt_max is None ==> folded(f).tilt_max == default_view().tilt_max,
        f.vibration.jitter_freq matches Some(v) ==> folded(f).jitter_freq == v,
        f.vibration.jitter_freq is None ==> folded(f).jitter_freq == default_view().jitter_freq,
        f.vibration.jitter_amplitude matches Some(v) ==> folded(f).jitter_amplitude == v,
        f.vibration.jitter_amplitude is None ==> folded(f).jitter_amplitude == default_view().jitter_amplitude,
        f.vibration.noise_floor matches Some(v) ==> folded(f).noise_floor == v,
        f.vibration.noise_floor is None ==> folded(f).noise_floor == default_view().noise_floor,
        f.vibration.jitter_freq_2 matches Some(v) ==> folded(f).jitter_freq_2 == v,
        f.vibration.jitter_freq_2 is None ==> folded(f).jitter_freq_2 == default_view().jitter_freq_2,
        f.vibration.jitter_amplitude_2 matches Some(v) ==> folded(f).jitter_amplitude_2 == v,
        f.vibration.jitter_amplitude_2 is None ==> folded(f).jitter_amplitude_2 == default_view().jitter_amplitude_2,
        f.atmosphere.refraction_enabled matches Some(v) ==> folded(f).refraction_enabled == v,
        f.atmosphere.refraction_enabled is None ==> folded(f).refraction_enabled == default_view().refraction_enabled,
        f.geopoint.alt_m matches Some(v) ==> folded(f).geopoint_alt_m == v,
        f.geopoint.alt_m is None ==> folded(f).geopoint_alt_m == default_view().geopoint_alt_m,
        f.track.p_gain matches Some(v) ==> folded(f).track_p_gain == v,
        f.track.p_gain is None ==> folded(f).track_p_gain == default_view().track_p_gain,
        f.track.d_gain matches Some(v) ==> folded(f).track_d_gain == v,
        f.track.d_gain is None ==> folded(f).track_d_gain == default_view().track_d_gain,
        f.coupling.gyro_factor matches Some(v) ==> folded(f).gyro_coupling_factor == v,
        f.coupling.gyro_factor is None ==> folded(f).gyro_coupling_factor == default_view().gyro_coupling_factor,
{
}

/// A setting with bounds that is in the file is taken from its own key, as it is where
/// it lies within the bounds and cut off on its own side where it does not. One that is
/// not in the file has its default.
pub proof fn bounded_settings_come_from_their_keys(f: ConfigFile)
    ensures
        ({
            let c = folded(f);
            let one = F32Bits { bits: F32_ONE };
            &&& f.stabilization.quality matches Some(v) ==> {
                &&& on_curve(v) ==> c.stabilization_quality == v
                &&& !v.nan() && v.rank() < 0 ==> c.stabilization_quality.rank() == 0
                &&& one.below(v) ==> c.stabilization_quality == one
            }
            &&& f.track.loss_threshold matches Some(v) ==> {
                &&& on_curve(v) ==> c.track_loss_threshold == v
                &&& !v.nan() && v.rank() < 0 ==> c.track_loss_threshold.rank() == 0
                &&& one.below(v) ==> c.track_loss_threshold == one
            }
            &&& f.track.gate_size_deg matches Some(v) ==> {
                &&& !v.nan() && v.rank() > 0 ==> c.track_gate_size_deg == v
                &&& !v.nan() && v.rank() <= 0 ==> c.track_gate_size_deg.rank() == 0
            }
            &&& f.track.target_size_m matches Some(v) ==> {
                &&& !v.nan() && v.rank() > 0 ==> c.track_target_size_m == v
                &&& !v.nan() && v.rank() <= 0 ==> c.track_target_size_m.rank() == 0
            }
            &&& f.terrain.elevation_m matches Some(v) ==> {
                &&& !v.nan() && v.rank() > 0 ==> c.terrain_elevation_m == v
                &&& !v.nan() && v.rank() <= 0 ==> c.terrain_elevation_m.rank() == 0
            }
            &&& f.laser.max_range_m matches Some(v) ==> {
                &&& !v.nan() && v.rank() > 0 ==> c.laser_max_range_m == v
                &&& !v.nan() && v.rank() <= 0 ==> c.laser_max_range_m.rank() == 0
            }
        }),
        f.stabilization.quality is None ==> folded(f).stabilization_quality
            == default_view().stabilization_quality,
        f.track.loss_threshold is None ==> folded(f).track_loss_threshold
            == default_view().track_loss_threshold,
        f.track.gate_size_deg is None ==> folded(f).track_gate_size_deg
            == default_view().track_gate_size_deg,
        f.track.target_size_m is None ==> folded(f).track_target_size_m
            == default_view().track_target_size_m,
        f.terrain.elevation_m is None ==> folded(f).terrain_elevation_m
            == default_view().terrain_elevation_m,
        f.laser.max_range_m is None ==> folded(f).laser_max_range_m
            == default_view().laser_max_range_m,
{
}

/// A mode in the file that can be read counts; one that cannot, or none, means the
/// default.
pub proof fn mode_comes_from_its_key(f: ConfigFile)
    ensures
        f.runtime.mode matches Some(name) ==> {
            &&& RuntimeMode::spec_parse(name@) matches Some(mode) ==> folded(f).runtime_mode == mode
            &&& RuntimeMode::spec_parse(name@) is None ==> folded(f).runtime_mode
                == RuntimeMode::Bridge
        },
        f.runtime.mode is None ==> folded(f).runtime_mode == RuntimeMode::Bridge,
{
}

/// Each field of view of a camera that is set is taken as it is from its own key, and
/// one that is not stays.
pub proof fn camera_fields_come_from_their_keys(section: CameraEntrySection, entry: CameraEntry)
    ensures
        ({
            let c = camera_with(section, entry);
            &&& section.hfov_wide matches Some(v) ==> c.hfov_wide == v
            &&& section.vfov_wide matches Some(v) ==> c.vfov_wide == v
            &&& section.hfov_narrow matches Some(v) ==> c.hfov_narrow == v
            &&& section.vfov_narrow matches Some(v) ==> c.vfov_narrow == v
            &&& section.hfov_wide is None ==> c.hfov_wide == entry.hfov_wide
            &&& section.vfov_wide is None ==> c.vfov_wide == entry.vfov_wide
            &&& section.hfov_narrow is None ==> c.hfov_narrow == entry.hfov_narrow
            &&& section.vfov_narrow is None ==> c.vfov_narrow == entry.vfov_narrow
        }),
{
}

/// The sections of the cameras are those of cameras 0, 1 and 2: wide daylight, narrow
/// daylight and infrared. The fields of view in front of the table are those of camera 0,
/// in radians.
pub proof fn cameras_come_from_their_sections(f: ConfigFile)
    ensures
        ({
            let c = folded(f);
            let d = default_view().camera_table;
            &&& c.camera_table.len() == 3
            &&& c.camera_table[0] == camera_with(f.camera.eo_wide, d[0])
            &&& c.camera_table[1] == camera_with(f.camera.eo_narrow, d[1])
            &&& c.camera_table[2] == camera_with(f.camera.ir, d[2])
            &&& c.hfov_wide == c.camera_table[0].hfov_wide.rad
            &&& c.vfov_wide == c.camera_table[0].vfov_wide.rad
            &&& c.hfov_narrow == c.camera_table[0].hfov_narrow.rad
            &&& c.vfov_narrow == c.camera_table[0].vfov_narrow.rad
        }),
{
}

/// The mount is set back by its offsets forward, right and down, and turned by roll,
/// pitch and yaw, in this order, each from its own key. What is not in the file is zero.
pub proof fn mount_comes_from_its_keys(f: ConfigFile)
    ensures
        ({
            let s = f.gimbal_mount;
            let m = folded(f).gimbal_mount;
            let zero = F64Bits { bits: 0 };
            &&& m.translation_body_m.len() == 3 && m.rotation_body_rad.len() == 3
            &&& m.translation_body_m[0] == if s.fwd_m is Some { s.fwd_m->0 } else { zero }
            &&& m.translation_body_m[1] == if s.right_m is Some { s.right_m->0 } else { zero }
            &&& m.translation_body_m[2] == if s.down_m is Some { s.down_m->0 } else { zero }
            &&& m.rotation_body_rad[0] == if s.roll_rad is Some { s.roll_rad->0 } else { zero }
            &&& m.rotation_body_rad[1] == if s.pitch_rad is Some { s.pitch_rad->0 } else { zero }
            &&& m.rotation_body_rad[2] == if s.yaw_rad is Some { s.yaw_rad->0 } else { zero }
        }),
{
}

/// The source that is named is selected with its own settings, each in its own field;
/// any other name means the fixed position.
pub proof fn named_source_selected(c: ConfigView)
    ensures
        c.platform_source == "mavlink"@ ==> selected_source(c) == SourceView::MavLink(
            MavLinkSourceConfig {
                listen_port: c.mavlink_listen_port,
                system_id: c.mavlink_system_id,
            },
        ),
        c.platform_source == "stanag4586"@ ==> (selected_source(c) matches SourceView::Stanag4586 {
            listen_port,
            multicast_group,
            vehicle_id_filter,
        } && listen_port == c.stanag_listen_port && multicast_group == c.stanag_multicast_group
            && vehicle_id_filter == c.stanag_vehicle_id),
        c.platform_source != "mavlink"@ && c.platform_source != "stanag4586"@ ==> (selected_source(
            c,
        ) matches SourceView::Static(p) && p.lat_rad == c.platform_lat && p.lon_rad
            == c.platform_lon && p.alt_m == c.platform_alt && p.roll_rad == c.platform_roll
            && p.pitch_rad == c.platform_pitch && p.yaw_rad == c.platform_yaw),
{
    reveal_strlit("mavlink");
    reveal_strlit("stanag4586");
    assert("mavlink"@.len() != "stanag4586"@.len());
}

/// The platform starts where a fixed source is: the latitude of the settings as latitude,
/// the longitude as longitude, and so on.
pub proof fn fixed_source_starts_at_settings(c: ConfigView)
    requires
        c.platform_source != "mavlink"@,
        c.platform_source != "stanag4586"@,
    ensures
        selected_source(c).initial_state().lat_rad == c.platform_lat,
        selected_source(c).initial_state().lon_rad == c.platform_lon,
        selected_source(c).initial_state().alt_m == c.platform_alt,
        selected_source(c).initial_state().roll_rad == c.platform_roll,
        selected_source(c).initial_state().pitch_rad == c.platform_pitch,
        selected_source(c).initial_state().yaw_rad == c.platform_yaw,
{
}

/// A camera that is fitted has its own entry in the table, and its own fields of view on
/// its curve, horizontal as horizontal and vertical as vertical.
pub proof fn fitted_camera_has_its_entry(table: Seq<CameraEntry>, index: i8, zoom: F32Bits)
    requires
        0 <= index < table.len(),
    ensures
        entry_of(table, index) == table[index as int],
        camera_curve(table, index, zoom).hfov_wide == table[index as int].hfov_wide.deg,
        camera_curve(table, index, zoom).hfov_narrow == table[index as int].hfov_narrow.deg,
        camera_curve(table, index, zoom).vfov_wide == table[index as int].vfov_wide.deg,
        camera_curve(table, index, zoom).vfov_narrow == table[index as int].vfov_narrow.deg,
        on_curve(zoom) ==> camera_curve(table, index, zoom).t == zoom,
{
}

/// The curve of the first camera, in radians, has its own fields of view at its ends.
pub proof fn first_curve_has_its_ends(c: ConfigView, zoom: F32Bits)
    requires
        zooms_in(c.hfov_wide, c.hfov_narrow),
        zooms_in(c.vfov_wide, c.vfov_narrow),
    ensures
        !zoom.nan() && zoom.rank() <= 0 ==> first_curve(c, zoom).end() == Some(
            (c.hfov_wide, c.vfov_wide),
        ),
        (F32Bits { bits: F32_ONE }).at_most(zoom) ==> first_curve(c, zoom).end() == Some(
            (c.hfov_narrow, c.vfov_narrow),
        ),
        on_curve(zoom) ==> first_curve(c, zoom).t == zoom,
        first_curve(c, zoom).hfov_wide == c.hfov_wide,
        first_curve(c, zoom).hfov_narrow == c.hfov_narrow,
        first_curve(c, zoom).vfov_wide == c.vfov_wide,
        first_curve(c, zoom).vfov_narrow == c.vfov_narrow,
{
}

/// Another mode changes the mode and nothing else, and the last one counts.
pub proof fn mode_is_replaced(c: ConfigView, a: RuntimeMode, b: RuntimeMode)
    ensures
        in_mode(c, a).runtime_mode == a,
        in_mode(in_mode(c, a), b) == in_mode(c, b),
        in_mode(c, c.runtime_mode) == c,
{
}

/// The wide field of view of a camera is where its zoom curve begins, horizontal as
/// horizontal and vertical as vertical.
pub proof fn wide_is_no_zoom(table: Seq<CameraEntry>, index: i8)
    ensures
        camera_curve(table, index, F32Bits { bits: 0 }).end() == Some(wide_fov(table, index)),
        0 <= index < table.len() ==> wide_fov(table, index).0 == table[index as int].hfov_wide.deg
            && wide_fov(table, index).1 == table[index as int].vfov_wide.deg,
{
}

/// Every camera that comes with the settings zooms in, and sees more across than up and
/// down.
pub proof fn default_cameras_zoom_in(index: i8)
    ensures
        ({
            let c = entry_of(default_cameras(), index);
            &&& zooms_in(c.hfov_wide.deg, c.hfov_narrow.deg)
            &&& zooms_in(c.vfov_wide.deg, c.vfov_narrow.deg)
            &&& zooms_in(c.hfov_wide.rad, c.hfov_narrow.rad)
            &&& zooms_in(c.vfov_wide.rad, c.vfov_narrow.rad)
            &&& c.vfov_wide.deg.below(c.hfov_wide.deg)
            &&& c.vfov_narrow.deg.below(c.hfov_narrow.deg)
            &&& c.vfov_wide.rad.below(c.hfov_wide.rad)
            &&& c.vfov_narrow.rad.below(c.hfov_narrow.rad)
        }),
{
}

/// The settings as a value have every setting in the field of its own name.
pub proof fn settings_as_a_value(c: Config)
    ensures
        c@.runtime_mode == c.runtime_mode,
        c@.orion_listen_port == c.orion_listen_port,
        c@.scene_generator_ip == c.scene_generator_ip@,
        c@.scene_generator_cigi_port == c.scene_generator_cigi_port,
        c@.cigi_listen_port == c.cigi_listen_port,
        c@.platform_lat == c.platform_lat,
        c@.platform_lon == c.platform_lon,
        c@.platform_alt == c.platform_alt,
        c@.platform_roll == c.platform_roll,
        c@.platform_pitch == c.platform_pitch,
        c@.platform_yaw == c.platform_yaw,
        c@.max_slew_rate == c.max_slew_rate,
        c@.max_accel == c.max_accel,
        c@.pan_limit == c.pan_limit,
        c@.tilt_min == c.tilt_min,
        c@.tilt_max == c.tilt_max,
        c@.hfov_wide == c.hfov_wide,
        c@.vfov_wide == c.vfov_wide,
        c@.hfov_narrow == c.hfov_narrow,
        c@.vfov_narrow == c.vfov_narrow,
        c@.camera_table == c.camera_table@,
        c@.jitter_freq == c.jitter_freq,
        c@.jitter_amplitude == c.jitter_amplitude,
        c@.noise_floor == c.noise_floor,
        c@.jitter_freq_2 == c.jitter_freq_2,
        c@.jitter_amplitude_2 == c.jitter_amplitude_2,
        c@.stabilization_quality == c.stabilization_quality,
        c@.gimbal_mount == c.gimbal_mount@,
        c@.refraction_enabled == c.refraction_enabled,
        c@.terrain_elevation_m == c.terrain_elevation_m,
        c@.geopoint_alt_m == c.geopoint_alt_m,
        c@.track_p_gain == c.track_p_gain,
        c@.track_d_gain == c.track_d_gain,
        c@.track_loss_threshold == c.track_loss_threshold,
        c@.track_gate_size_deg == c.track_gate_size_deg,
        c@.track_target_size_m == c.track_target_size_m,
        c@.laser_max_range_m == c.laser_max_range_m,
        c@.gyro_coupling_factor == c.gyro_coupling_factor,
        c@.platform_source == c.platform_source@,
        c@.mavlink_listen_port == c.mavlink_listen_port,
        c@.mavlink_system_id == c.mavlink_system_id,
        c@.stanag_listen_port == c.stanag_listen_port,
        c@.stanag_multicast_group == c.stanag_multicast_group@,
        c@.stanag_vehicle_id == c.stanag_vehicle_id,
{
}

/// A range to zoom in: the narrow end is above zero and not above the wide one, which is
/// finite.
pub proof fn zoom_ranges(wide: F32Bits, narrow: F32Bits)
    ensures
        zooms_in(wide, narrow) <==> 0 < narrow.rank() <= wide.rank() < F32_INFINITY,
{
}

} // verus!
