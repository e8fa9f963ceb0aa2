//! Where the platform is, how it is oriented and how it moves.

use vstd::prelude::*;

use crate::bits::{F32Bits, F64Bits};
use crate::config::Config;

pub mod mavlink;
pub mod stanag4586;
pub mod static_source;

verus! {

/// Position, attitude and velocity of the platform.
#[derive(Debug, Clone, Copy, PartialEq, Eq, Structural)]
pub struct PlatformState {
    /// Geodetic latitude (rad).
    pub lat_rad: F64Bits,
    /// Geodetic longitude (rad).
    pub lon_rad: F64Bits,
    /// Altitude above the ellipsoid (m).
    pub alt_m: F64Bits,
    /// Roll (rad, right wing down positive).
    pub roll_rad: F32Bits,
    /// Pitch (rad, nose up positive).
    pub pitch_rad: F32Bits,
    /// Yaw (rad, clockwise from north).
    pub yaw_rad: F32Bits,
    /// Velocity north (m/s).
    pub vel_north_m_s: F32Bits,
    /// Velocity east (m/s).
    pub vel_east_m_s: F32Bits,
    /// Velocity down (m/s).
    pub vel_down_m_s: F32Bits,
}

/// At rest at the origin.
pub open spec fn zero_state() -> PlatformState {
    PlatformState {
        lat_rad: F64Bits { bits: 0 },
        lon_rad: F64Bits { bits: 0 },
        alt_m: F64Bits { bits: 0 },
        roll_rad: F32Bits { bits: 0 },
        pitch_rad: F32Bits { bits: 0 },
        yaw_rad: F32Bits { bits: 0 },
        vel_north_m_s: F32Bits { bits: 0 },
        vel_east_m_s: F32Bits { bits: 0 },
        vel_down_m_s: F32Bits { bits: 0 },
    }
}

impl Default for PlatformState {
    /// At rest at the origin.
    fn default() -> (r: Self)
        ensures
            r == zero_state(),
    {
        PlatformState {
            lat_rad: F64Bits::from_bits(0),
            lon_rad: F64Bits::from_bits(0),
            alt_m: F64Bits::from_bits(0),
            roll_rad: F32Bits::from_bits(0),
            pitch_rad: F32Bits::from_bits(0),
            yaw_rad: F32Bits::from_bits(0),
            vel_north_m_s: F32Bits::from_bits(0),
            vel_east_m_s: F32Bits::from_bits(0),
            vel_down_m_s: F32Bits::from_bits(0),
        }
    }
}

impl PlatformState {
    /// At rest at the position and attitude of the settings.
    pub open spec fn at_rest(cfg: Config) -> PlatformState {
        PlatformState {
            lat_rad: cfg.platform_lat,
            lon_rad: cfg.platform_lon,
            alt_m: cfg.platform_alt,
            roll_rad: cfg.platform_roll,
            pitch_rad: cfg.platform_pitch,
            yaw_rad: cfg.platform_yaw,
            ..zero_state()
        }
    }

    /// At rest at the position and attitude of the settings.
    pub fn from_config(cfg: &Config) -> (r: Self)
        ensures
            r == PlatformState::at_rest(*cfg),
    {
        PlatformState {
            lat_rad: cfg.platform_lat,
            lon_rad: cfg.platform_lon,
            alt_m: cfg.platform_alt,
            roll_rad: cfg.platform_roll,
            pitch_rad: cfg.platform_pitch,
            yaw_rad: cfg.platform_yaw,
            vel_north_m_s: F32Bits::from_bits(0),
            vel_east_m_s: F32Bits::from_bits(0),
            vel_down_m_s: F32Bits::from_bits(0),
        }
    }
}

// ── Sources ────────────────────────────────────────────────────────────

/// A MAVLink source.
#[derive(Debug, Clone, Copy, PartialEq, Eq, Structural)]
pub struct MavLinkSourceConfig {
    /// UDP port.
    pub listen_port: u16,
    /// System to use; 0 for any.
    pub system_id: u8,
}

/// A STANAG 4586 source.
#[derive(Debug, Clone)]
pub struct Stanag4586SourceConfig {
    /// UDP port.
    pub listen_port: u16,
    /// Multicast group to join.
    pub multicast_group: String,
    /// Vehicle to use; 0 for any.
    pub vehicle_id_filter: i32,
}

/// A fixed position (rad, m) and attitude (rad).
#[derive(Debug, Clone, Copy, PartialEq, Eq, Structural)]
pub struct StaticSourceConfig {
    pub lat_rad: F64Bits,
    pub lon_rad: F64Bits,
    pub alt_m: F64Bits,
    pub roll_rad: F32Bits,
    pub pitch_rad: F32Bits,
    pub yaw_rad: F32Bits,
}

/// Where the platform state comes from.
#[derive(Debug, Clone)]
pub enum PlatformSourceConfig {
    MavLink(MavLinkSourceConfig),
    Stanag4586(Stanag4586SourceConfig),
    Static(StaticSourceConfig),
}

/// Where the platform state comes from, as a value.
#[verifier::ext_equal]
pub enum SourceView {
    MavLink(MavLinkSourceConfig),
    Stanag4586 { listen_port: u16, multicast_group: Seq<char>, vehicle_id_filter: i32 },
    Static(StaticSourceConfig),
}

impl View for PlatformSourceConfig {
    type V = SourceView;

    open spec fn view(&self) -> SourceView {
        match *self {
            PlatformSourceConfig::MavLink(c) => SourceView::MavLink(c),
            PlatformSourceConfig::Stanag4586(c) => SourceView::Stanag4586 {
                listen_port: c.listen_port,
                multicast_group: c.multicast_group@,
                vehicle_id_filter: c.vehicle_id_filter,
            },
            PlatformSourceConfig::Static(c) => SourceView::Static(c),
        }
    }
}

impl SourceView {
    /// The name of the source.
    pub open spec fn kind(self) -> Seq<char> {
        match self {
            SourceView::MavLink(..) => "mavlink"@,
            SourceView::Stanag4586 { .. } => "stanag4586"@,
            SourceView::Static(..) => "static"@,
        }
    }

    /// The platform state before any update: a fixed position is known at once,
    /// and the other sources start at the origin.
    pub open spec fn initial_state(self) -> PlatformState {
        match self {
            SourceView::Static(c) => PlatformState {
                lat_rad: c.lat_rad,
                lon_rad: c.lon_rad,
                alt_m: c.alt_m,
                roll_rad: c.roll_rad,
                pitch_rad: c.pitch_rad,
                yaw_rad: c.yaw_rad,
                ..zero_state()
            },
            _ => zero_state(),
        }
    }
}

impl PlatformSourceConfig {
    /// The name of the source.
    pub fn kind(&self) -> (r: &'static str)
        ensures
            r@ == self@.kind(),
    {
        match self {
            PlatformSourceConfig::MavLink(_) => "mavlink",
            PlatformSourceConfig::Stanag4586(_) => "stanag4586",
            PlatformSourceConfig::Static(_) => "static",
        }
    }

    /// The platform state before any update.
    pub fn initial_state(&self) -> (r: PlatformState)
        ensures
            r == self@.initial_state(),
    {
        match self {
            PlatformSourceConfig::Static(c) => PlatformState {
                lat_rad: c.lat_rad,
                lon_rad: c.lon_rad,
                alt_m: c.alt_m,
                roll_rad: c.roll_rad,
                pitch_rad: c.pitch_rad,
                yaw_rad: c.yaw_rad,
                vel_north_m_s: F32Bits::from_bits(0),
                vel_east_m_s: F32Bits::from_bits(0),
                vel_down_m_s: F32Bits::from_bits(0),
            },
            _ => PlatformState::default(),
        }
    }
}

// ── Laws ───────────────────────────────────────────────────────────────

/// Settings put the platform at their position and attitude, each coordinate and
/// angle in its own field, and at rest.
pub proof fn settings_place_platform(cfg: Config)
    ensures
        PlatformState::at_rest(cfg).lat_rad == cfg.platform_lat,
        PlatformState::at_rest(cfg).lon_rad == cfg.platform_lon,
        PlatformState::at_rest(cfg).alt_m == cfg.platform_alt,
        PlatformState::at_rest(cfg).roll_rad == cfg.platform_roll,
        PlatformState::at_rest(cfg).pitch_rad == cfg.platform_pitch,
        PlatformState::at_rest(cfg).yaw_rad == cfg.platform_yaw,
        PlatformState::at_rest(cfg).vel_north_m_s.rank() == 0,
        PlatformState::at_rest(cfg).vel_east_m_s.rank() == 0,
        PlatformState::at_rest(cfg).vel_down_m_s.rank() == 0,
{
}

/// A fixed source is at its position and attitude from the start, at rest. Any other
/// starts at the origin.
pub proof fn fixed_source_is_known_at_once(source: SourceView)
    ensures
        ({
            let s = source.initial_state();
            &&& source matches SourceView::Static(c) ==> {
                &&& s.lat_rad == c.lat_rad
                &&& s.lon_rad == c.lon_rad
                &&& s.alt_m == c.alt_m
                &&& s.roll_rad == c.roll_rad
                &&& s.pitch_rad == c.pitch_rad
                &&& s.yaw_rad == c.yaw_rad
            }
            &&& !(source is Static) ==> {
                &&& s.lat_rad.rank() == 0 && s.lon_rad.rank() == 0 && s.alt_m.rank() == 0
                &&& s.roll_rad.rank() == 0 && s.pitch_rad.rank() == 0 && s.yaw_rad.rank() == 0
            }
            &&& s.vel_north_m_s.rank() == 0
            &&& s.vel_east_m_s.rank() == 0
            &&& s.vel_down_m_s.rank() == 0
        }),
{
}

/// A source is named after its kind, and its contents are its own settings.
pub proof fn source_is_its_kind(source: PlatformSourceConfig)
    ensures
        source matches PlatformSourceConfig::MavLink(c) ==> source@ == SourceView::MavLink(c)
            && source@.kind() == "mavlink"@,
        source matches PlatformSourceConfig::Stanag4586(c) ==> {
            &&& source@.kind() == "stanag4586"@
            &&& source@ matches SourceView::Stanag4586 {
                listen_port,
                multicast_group,
                vehicle_id_filter,
            }
            &&& listen_port == c.listen_port
            &&& multicast_group == c.multicast_group@
            &&& vehicle_id_filter == c.vehicle_id_filter
        },
        source matches PlatformSourceConfig::Static(c) ==> source@ == SourceView::Static(c)
            && source@.kind() == "static"@,
{
}

} // verus!
