//! From Orion to CIGI.

use vstd::prelude::*;

use crate::bits::{F32Bits, F64Bits, F32_ONE};
use crate::cigi::messages::{SensorControl, SensorExtendedResponse};
use crate::config::{unit_clamped, GimbalMount};
use crate::convert::{MAX_ANGLE, MAX_SLEW_RATE};
use crate::orion::{GeolocateTelemetryCorePacket, OrionCmdPacket, OrionMode};

verus! {

/// Sensor status: on target.
pub const LOCKED: u8 = 0;

/// Sensor status: tracking.
pub const TRACKING: u8 = 1;

/// Sensor status: moving.
pub const SLEWING: u8 = 2;

/// Sensor status: neither on target nor on the way.
pub const BREAKLOCK: u8 = 3;

/// A mode that moves to a position.
pub open spec fn seeks_position(mode: OrionMode) -> bool {
    mode is OrionModePosition || mode is OrionModeGeopoint || mode is OrionModePositionNoLimits
}

/// The sensor status of a mode. Position modes are locked once settled; rate mode
/// always slews; track mode tracks until the track is lost.
pub open spec fn status_of(mode: OrionMode, settled: bool, track_active: bool) -> u8 {
    if seeks_position(mode) {
        if settled {
            LOCKED
        } else {
            SLEWING
        }
    } else if mode is OrionModeRate {
        SLEWING
    } else if mode is OrionModeTrack && track_active {
        TRACKING
    } else {
        BREAKLOCK
    }
}

/// The sensor status of a mode.
pub fn orion_mode_to_sensor_status(mode: OrionMode, settled: bool, track_active: bool) -> (r: u8)
    ensures
        r == status_of(mode, settled, track_active),
{
    match mode {
        OrionMode::OrionModePosition
        | OrionMode::OrionModeGeopoint
        | OrionMode::OrionModePositionNoLimits => if settled {
            LOCKED
        } else {
            SLEWING
        },
        OrionMode::OrionModeRate => SLEWING,
        OrionMode::OrionModeTrack => if track_active {
            TRACKING
        } else {
            BREAKLOCK
        },
        _ => BREAKLOCK,
    }
}

/// A response for `telem` whose position in degrees is given. Its tracking gate
/// lies in the image centre and has the default size.
pub open spec fn response_for(
    telem: GeolocateTelemetryCorePacket,
    lat_deg: F64Bits,
    lon_deg: F64Bits,
    view_id: u16,
    sensor_id: u8,
    settled: bool,
    track_active: bool,
) -> SensorExtendedResponse {
    SensorExtendedResponse {
        view_id,
        sensor_id,
        sensor_status: status_of(telem.mode, settled, track_active),
        gate_x_size: 20,
        gate_y_size: 20,
        gate_x_pos: F32Bits { bits: 0 },
        gate_y_pos: F32Bits { bits: 0 },
        frame_ctr: telem.system_time,
        entity_id_valid: false,
        entity_id: 0,
        entity_lat: lat_deg,
        entity_lon: lon_deg,
        entity_alt: telem.pos_alt,
    }
}

/// The response for Orion telemetry. `lat_deg` and `lon_deg` are its position in
/// degrees. `settled` says whether a position mode has reached its target, and
/// `track_active` whether track mode still has one.
pub fn telemetry_to_sensor_extended_response(
    telem: &GeolocateTelemetryCorePacket,
    lat_deg: F64Bits,
    lon_deg: F64Bits,
    view_id: u16,
    sensor_id: u8,
    settled: bool,
    track_active: bool,
) -> (r: SensorExtendedResponse)
    ensures
        r == response_for(*telem, lat_deg, lon_deg, view_id, sensor_id, settled, track_active),
{
    SensorExtendedResponse {
        view_id,
        sensor_id,
        sensor_status: orion_mode_to_sensor_status(telem.mode, settled, track_active),
        gate_x_size: 20,
        gate_y_size: 20,
        gate_x_pos: F32Bits::from_bits(0),
        gate_y_pos: F32Bits::from_bits(0),
        frame_ctr: telem.system_time,
        entity_id_valid: false,
        entity_id: 0,
        entity_lat: lat_deg,
        entity_lon: lon_deg,
        entity_alt: telem.pos_alt,
    }
}

/// What stands for full scale in a command: a rate in rate mode, an angle in all
/// other modes.
pub open spec fn full_scale(mode: OrionMode) -> F32Bits {
    if mode is OrionModeRate {
        F32Bits { bits: MAX_SLEW_RATE }
    } else {
        F32Bits { bits: MAX_ANGLE }
    }
}

/// What stands for full scale in a command of the given mode. A target of `-scale`
/// up to `scale` maps to 0 up to 1 by `(target / scale + 1) / 2`.
pub fn target_scale(mode: OrionMode) -> (r: F32Bits)
    ensures
        r == full_scale(mode),
{
    match mode {
        OrionMode::OrionModeRate => F32Bits::from_bits(MAX_SLEW_RATE),
        _ => F32Bits::from_bits(MAX_ANGLE),
    }
}

/// The sensor state of a mode.
pub open spec fn sensor_state_of(mode: OrionMode) -> u8 {
    match mode {
        OrionMode::OrionModePosition => 1,
        OrionMode::OrionModeRate => 1,
        OrionMode::OrionModeTrack => 2,
        OrionMode::OrionModeGeopoint => 4,
        _ => 0,
    }
}

/// A camera index pushed into 0 up to 2.
pub open spec fn camera_clamped(index: i8) -> u8 {
    if index < 0 {
        0
    } else if index > 2 {
        2
    } else {
        index as u8
    }
}

/// The sensor control for a command whose target, mapped to 0 up to 1, is
/// `scaled`.
pub open spec fn control_for(
    cmd: OrionCmdPacket,
    scaled: [F32Bits; 2],
    camera_index: i8,
    zoom_level: F32Bits,
) -> SensorControl {
    SensorControl {
        sensor_id: camera_clamped(camera_index),
        view_id: 0,
        sensor_state: sensor_state_of(cmd.cmd.mode),
        track_mode: if cmd.cmd.mode is OrionModeRate {
            1
        } else {
            0
        },
        gain: unit_clamped(scaled[0]),
        level: unit_clamped(scaled[1]),
        ac_coupling: if cmd.cmd.mode is OrionModeGeopoint {
            F32Bits { bits: 0 }
        } else {
            unit_clamped(zoom_level)
        },
        ..SensorControl::spec_default()
    }
}

/// The sensor control for a command. `scaled` is the target of the command, each
/// axis mapped to 0 up to 1 by [`target_scale`]; what lies outside is cut off.
/// Zoom goes into the coupling field, except in geopoint mode.
pub fn orion_cmd_to_sensor_control(
    cmd: &OrionCmdPacket,
    scaled: [F32Bits; 2],
    camera_index: i8,
    zoom_level: F32Bits,
) -> (r: SensorControl)
    ensures
        r == control_for(*cmd, scaled, camera_index, zoom_level),
{
    let zero = F32Bits::from_bits(0);
    let one = F32Bits::from_bits(F32_ONE);
    let (sensor_state, track_mode): (u8, u8) = match cmd.cmd.mode {
        OrionMode::OrionModeDisabled => (0, 0),
        OrionMode::OrionModePosition => (1, 0),
        OrionMode::OrionModeRate => (1, 1),
        OrionMode::OrionModeTrack => (2, 0),
        OrionMode::OrionModeGeopoint => (4, 0),
        _ => (0, 0),
    };
    let ac_coupling = match cmd.cmd.mode {
        OrionMode::OrionModeGeopoint => zero,
        _ => zoom_level.clamp(zero, one),
    };
    let sensor_id: u8 = if camera_index < 0 {
        0
    } else if camera_index > 2 {
        2
    } else {
        camera_index as u8
    };
    SensorControl {
        sensor_id,
        view_id: 0,
        sensor_state,
        track_mode,
        gain: scaled[0].clamp(zero, one),
        level: scaled[1].clamp(zero, one),
        ac_coupling,
        ..SensorControl::default()
    }
}

/// A view on the gimbal: where it sits and where it points.
#[derive(Debug, Clone, Copy, PartialEq, Eq)]
pub struct ViewPose {
    pub view_id: u16,
    /// The entity that the view is attached to.
    pub entity_id: u16,
    /// The offset forward is set.
    pub x_off_en: bool,
    /// The offset to the right is set.
    pub y_off_en: bool,
    /// The offset down is set.
    pub z_off_en: bool,
    pub roll_en: bool,
    pub pitch_en: bool,
    pub yaw_en: bool,
    /// How the gimbal sits on the entity: offset of the view, and the rotation that
    /// pan and tilt are relative to.
    pub mount: GimbalMount,
    /// Pan (rad).
    pub pan: F32Bits,
    /// Tilt (rad).
    pub tilt: F32Bits,
}

/// The view on a gimbal at `mount` with the given pan and tilt. All of its offsets
/// and angles are set.
pub open spec fn view_of(
    pan: F32Bits,
    tilt: F32Bits,
    mount: GimbalMount,
    view_id: u16,
    entity_id: u16,
) -> ViewPose {
    ViewPose {
        view_id,
        entity_id,
        x_off_en: true,
        y_off_en: true,
        z_off_en: true,
        roll_en: true,
        pitch_en: true,
        yaw_en: true,
        mount,
        pan,
        tilt,
    }
}

/// The view on a gimbal at `mount` with the given pan and tilt (rad).
pub fn view_pose(
    pan: F32Bits,
    tilt: F32Bits,
    mount: &GimbalMount,
    view_id: u16,
    entity_id: u16,
) -> (r: ViewPose)
    ensures
        r == view_of(pan, tilt, *mount, view_id, entity_id),
{
    ViewPose {
        view_id,
        entity_id,
        x_off_en: true,
        y_off_en: true,
        z_off_en: true,
        roll_en: true,
        pitch_en: true,
        yaw_en: true,
        mount: *mount,
        pan,
        tilt,
    }
}

/// The view on a gimbal at `mount` for a command.
pub open spec fn view_for(
    cmd: OrionCmdPacket,
    mount: GimbalMount,
    view_id: u16,
    entity_id: u16,
) -> ViewPose {
    if cmd.cmd.mode is OrionModePosition {
        view_of(cmd.cmd.target[0], cmd.cmd.target[1], mount, view_id, entity_id)
    } else {
        view_of(F32Bits { bits: 0 }, F32Bits { bits: 0 }, mount, view_id, entity_id)
    }
}

/// The view on a gimbal at `mount` for a command. It points at the target of the
/// command in position mode, and straight ahead in all other modes, whose targets
/// are no angles.
pub fn orion_cmd_to_view_control(
    cmd: &OrionCmdPacket,
    mount: &GimbalMount,
    view_id: u16,
    entity_id: u16,
) -> (r: ViewPose)
    ensures
        r == view_for(*cmd, *mount, view_id, entity_id),
        r.mount == *mount,
        cmd.cmd.mode is OrionModePosition ==> r == view_of(
            cmd.cmd.target[0],
            cmd.cmd.target[1],
            *mount,
            view_id,
            entity_id,
        ),
        !(cmd.cmd.mode is OrionModePosition) ==> r == view_of(
            F32Bits { bits: 0 },
            F32Bits { bits: 0 },
            *mount,
            view_id,
            entity_id,
        ),
{
    match cmd.cmd.mode {
        OrionMode::OrionModePosition => view_pose(
            cmd.cmd.target[0],
            cmd.cmd.target[1],
            mount,
            view_id,
            entity_id,
        ),
        _ => view_pose(
            F32Bits::from_bits(0),
            F32Bits::from_bits(0),
            mount,
            view_id,
            entity_id,
        ),
    }
}

// ── Laws ───────────────────────────────────────────────────────────────

/// A sensor control for a command survives the wire: all its fields fit their
/// bits.
pub proof fn control_survives_wire(
    cmd: OrionCmdPacket,
    scaled: [F32Bits; 2],
    camera_index: i8,
    zoom_level: F32Bits,
)
    ensures
        SensorControl::spec_decode(
            control_for(cmd, scaled, camera_index, zoom_level).spec_encode(),
        ) == Some(control_for(cmd, scaled, camera_index, zoom_level)),
{
    crate::cigi::messages::sensor_control_roundtrip(
        control_for(cmd, scaled, camera_index, zoom_level),
    );
}

/// The status of each mode: a position mode is locked (0) once settled and slews (2)
/// before; rate mode slews (2); a track that is followed tracks (1); a lost track and
/// every other mode have broken lock (3).
pub proof fn status_of_modes(mode: OrionMode, settled: bool, track_active: bool)
    ensures
        ({
            let status = status_of(mode, settled, track_active);
            let position = mode is OrionModePosition || mode is OrionModeGeopoint || mode
                is OrionModePositionNoLimits;
            &&& status == 0 <==> position && settled
            &&& status == 1 <==> mode is OrionModeTrack && track_active
            &&& status == 2 <==> (position && !settled) || mode is OrionModeRate
            &&& status <= 3
        }),
{
}

/// A response stands for its telemetry: latitude, longitude and altitude each in its own
/// field, the time as frame counter, view and sensor as given.
pub proof fn response_is_the_telemetry(
    telem: GeolocateTelemetryCorePacket,
    lat_deg: F64Bits,
    lon_deg: F64Bits,
    view_id: u16,
    sensor_id: u8,
    settled: bool,
    track_active: bool,
)
    ensures
        ({
            let r = response_for(
                telem,
                lat_deg,
                lon_deg,
                view_id,
                sensor_id,
                settled,
                track_active,
            );
            &&& r.entity_lat == lat_deg
            &&& r.entity_lon == lon_deg
            &&& r.entity_alt == telem.pos_alt
            &&& r.view_id == view_id
            &&& r.sensor_id == sensor_id
            &&& r.frame_ctr == telem.system_time
            &&& r.gate_x_size == 20 && r.gate_y_size == 20
            &&& r.gate_x_pos.rank() == 0 && r.gate_y_pos.rank() == 0
            &&& !r.entity_id_valid && r.entity_id == 0
            &&& telem.mode is OrionModeRate ==> r.sensor_status == 2
        }),
{
}

/// Pan goes into the gain and tilt into the level of a sensor control. What lies between
/// 0 and 1 is sent as it is, anything else is cut off on its own side.
pub proof fn target_is_sent(
    cmd: OrionCmdPacket,
    scaled: [F32Bits; 2],
    camera_index: i8,
    zoom_level: F32Bits,
)
    requires
        !scaled[0].nan(),
        !scaled[1].nan(),
    ensures
        ({
            let sc = control_for(cmd, scaled, camera_index, zoom_level);
            let (zero, one) = (F32Bits { bits: 0 }, F32Bits { bits: F32_ONE });
            &&& zero.at_most(scaled[0]) && scaled[0].at_most(one) ==> sc.gain == scaled[0]
            &&& scaled[0].below(zero) ==> sc.gain.rank() == 0
            &&& one.below(scaled[0]) ==> sc.gain == one
            &&& zero.at_most(scaled[1]) && scaled[1].at_most(one) ==> sc.level == scaled[1]
            &&& scaled[1].below(zero) ==> sc.level.rank() == 0
            &&& one.below(scaled[1]) ==> sc.level == one
        }),
{
}

/// Zoom goes into the coupling, cut off at 0 and 1, in every mode but geopoint, which
/// sends none.
pub proof fn zoom_is_sent(
    cmd: OrionCmdPacket,
    scaled: [F32Bits; 2],
    camera_index: i8,
    zoom_level: F32Bits,
)
    requires
        !zoom_level.nan(),
    ensures
        ({
            let sc = control_for(cmd, scaled, camera_index, zoom_level);
            let (zero, one) = (F32Bits { bits: 0 }, F32Bits { bits: F32_ONE });
            &&& cmd.cmd.mode is OrionModeGeopoint ==> sc.ac_coupling.rank() == 0
            &&& !(cmd.cmd.mode is OrionModeGeopoint) ==> {
                &&& zero.at_most(zoom_level) && zoom_level.at_most(one) ==> sc.ac_coupling
                    == zoom_level
                &&& zoom_level.below(zero) ==> sc.ac_coupling.rank() == 0
                &&& one.below(zoom_level) ==> sc.ac_coupling == one
            }
        }),
{
}

/// The mode of a command is told by state and track mode: position is state 1, rate the
/// same with track mode 1, a track state 2, geopoint state 4, and every other mode is
/// off. The camera is told by the sensor, as far as there is one.
pub proof fn mode_and_camera_are_sent(
    cmd: OrionCmdPacket,
    scaled: [F32Bits; 2],
    camera_index: i8,
    zoom_level: F32Bits,
)
    ensures
        ({
            let sc = control_for(cmd, scaled, camera_index, zoom_level);
            let mode = cmd.cmd.mode;
            &&& sc.sensor_state == 1 <==> mode is OrionModePosition || mode is OrionModeRate
            &&& sc.sensor_state == 2 <==> mode is OrionModeTrack
            &&& sc.sensor_state == 4 <==> mode is OrionModeGeopoint
            &&& sc.sensor_state == 0 || sc.sensor_state == 1 || sc.sensor_state == 2
                || sc.sensor_state == 4
            &&& sc.track_mode == 1 <==> mode is OrionModeRate
            &&& sc.track_mode == 0 <==> !(mode is OrionModeRate)
            &&& 0 <= camera_index <= 2 ==> sc.sensor_id == camera_index
            &&& camera_index < 0 ==> sc.sensor_id == 0
            &&& camera_index > 2 ==> sc.sensor_id == 2
            &&& sc.view_id == 0
            &&& sc.noise.rank() == 0
            &&& !sc.polarity && !sc.line_of_sight_enable && !sc.response_type
            &&& !sc.auto_gain && !sc.track_polarity
        }),
{
}

/// Rates are scaled by the largest rate, everything else by half a turn.
pub proof fn scale_follows_mode(mode: OrionMode)
    ensures
        mode is OrionModeRate ==> full_scale(mode).bits == MAX_SLEW_RATE,
        !(mode is OrionModeRate) ==> full_scale(mode).bits == MAX_ANGLE,
        full_scale(mode).rank() > 0,
{
}

/// The view for a command points where a position command does, pan as pan and tilt as
/// tilt, and straight ahead otherwise. It sits where the gimbal does, with every offset
/// and angle in force.
pub proof fn view_follows_command(
    cmd: OrionCmdPacket,
    mount: GimbalMount,
    view_id: u16,
    entity_id: u16,
)
    ensures
        ({
            let v = view_for(cmd, mount, view_id, entity_id);
            &&& cmd.cmd.mode is OrionModePosition ==> v.pan == cmd.cmd.target[0] && v.tilt
                == cmd.cmd.target[1]
            &&& !(cmd.cmd.mode is OrionModePosition) ==> v.pan.rank() == 0 && v.tilt.rank() == 0
            &&& v.mount == mount
            &&& v.view_id == view_id
            &&& v.entity_id == entity_id
            &&& v.x_off_en && v.y_off_en && v.z_off_en
            &&& v.roll_en && v.pitch_en && v.yaw_en
        }),
{
}

/// A view at given angles has them: pan as pan and tilt as tilt.
pub proof fn view_has_its_angles(
    pan: F32Bits,
    tilt: F32Bits,
    mount: GimbalMount,
    view_id: u16,
    entity_id: u16,
)
    ensures
        view_of(pan, tilt, mount, view_id, entity_id).pan == pan,
        view_of(pan, tilt, mount, view_id, entity_id).tilt == tilt,
        view_of(pan, tilt, mount, view_id, entity_id).mount == mount,
        view_of(pan, tilt, mount, view_id, entity_id).view_id == view_id,
        view_of(pan, tilt, mount, view_id, entity_id).entity_id == entity_id,
{
}

} // verus!
