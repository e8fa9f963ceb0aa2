//! The decisions of the main loop.
//!
//! Times are nanoseconds since the start of the program.

use vstd::prelude::*;

use crate::bits::F64Bits;
use crate::cigi::host::CigiResponse;
use crate::cigi::messages::{IgControl, SensorExtendedResponse};
use crate::config::RuntimeMode;
use crate::orion::OrionCmdPacket;
use crate::text::same_text;

verus! {

/// The scene generator is gone after this time without a start of frame (ns).
pub const SG_TIMEOUT: u64 = 2_000_000_000;

/// A sensor response younger than this makes telemetry of our own needless (ns).
pub const SR_KEEPALIVE_STALE: u64 = 200_000_000;

/// Ticks per telemetry packet.
pub const TELEMETRY_TICKS: u32 = 5;

/// Ticks per diagnostics report.
pub const DIAGNOSTICS_TICKS: u32 = 50;

/// Field of view presets that the scene generator knows.
pub const WIRE_PRESET_COUNT: u8 = 3;

// ── Arguments ──────────────────────────────────────────────────────────

/// The mode that one argument asks for.
pub open spec fn mode_argument(arg: Seq<char>) -> Option<RuntimeMode> {
    if arg == "--simulator"@ {
        Some(RuntimeMode::Simulator)
    } else if arg == "--bridge"@ {
        Some(RuntimeMode::Bridge)
    } else {
        None
    }
}

/// The mode that the arguments ask for: the last of them that asks for one.
pub open spec fn mode_override(args: Seq<String>) -> Option<RuntimeMode>
    decreases args.len(),
{
    if args.len() == 0 {
        None
    } else if mode_argument(args.last()@) is Some {
        mode_argument(args.last()@)
    } else {
        mode_override(args.drop_last())
    }
}

/// The mode that the arguments ask for: the last of them that asks for one.
pub fn cli_mode_override(args: &Vec<String>) -> (r: Option<RuntimeMode>)
    ensures
        r == mode_override(args@),
{
    let mut mode: Option<RuntimeMode> = None;
    let mut i: usize = 0;
    while i < args.len()
        invariant
            i <= args.len(),
            mode == mode_override(args@.take(i as int)),
        decreases args.len() - i,
    {
        proof {
            assert(args@.take(i + 1).drop_last() =~= args@.take(i as int));
        }
        if same_text(args[i].as_str(), "--simulator") {
            mode = Some(RuntimeMode::Simulator);
        } else if same_text(args[i].as_str(), "--bridge") {
            mode = Some(RuntimeMode::Bridge);
        }
        i = i + 1;
    }
    proof {
        assert(args@.take(i as int) =~= args@);
    }
    mode
}

/// The arguments ask for diagnostics.
pub open spec fn asks_for_diagnostics(args: Seq<String>) -> bool {
    exists|i: int| 0 <= i < args.len() && (#[trigger] args[i])@ == "--diag"@
}

/// Whether the arguments ask for diagnostics.
pub fn diagnostics_requested(args: &Vec<String>) -> (r: bool)
    ensures
        r == asks_for_diagnostics(args@),
        r == exists|i: int| 0 <= i < args@.len() && (#[trigger] args@[i])@ == "--diag"@,
{
    let mut i: usize = 0;
    while i < args.len()
        invariant
            i <= args.len(),
            forall|k: int| 0 <= k < i ==> (#[trigger] args@[k])@ != "--diag"@,
        decreases args.len() - i,
    {
        if same_text(args[i].as_str(), "--diag") {
            return true;
        }
        i = i + 1;
    }
    false
}

// ── Main loop ──────────────────────────────────────────────────────────

/// What the main loop remembers.
#[derive(Debug, Clone, Copy)]
pub struct Runtime {
    pub mode: RuntimeMode,
    /// Diagnostics are reported.
    pub diag_enabled: bool,
    /// Ticks so far.
    pub frame_ctr: u32,
    /// The last command.
    pub last_cmd: Option<OrionCmdPacket>,
    /// When the last start of frame came.
    pub last_sof: Option<u64>,
    /// Its frame number.
    pub last_ig_frame_ctr: u32,
    /// When the last sensor response came.
    pub last_sensor_response: Option<u64>,
}

/// What a tick does.
#[derive(Debug, Clone, Copy, PartialEq, Eq, Structural)]
pub struct TickPlan {
    /// Send the state to the scene generator.
    pub to_scene_generator: bool,
    /// Send telemetry of our own.
    pub telemetry: bool,
    /// Report diagnostics.
    pub diagnostics: bool,
}

/// Something happened less than `limit` ago.
pub open spec fn recent(at: Option<u64>, now: u64, limit: u64) -> bool {
    match at {
        Some(t) => now - t < limit,
        None => false,
    }
}

/// Whether something happened less than `limit` ago.
fn is_recent(at: Option<u64>, now: u64, limit: u64) -> (r: bool)
    requires
        limit > 0,
    ensures
        r == recent(at, now, limit),
{
    match at {
        Some(t) => now < t || now - t < limit,
        None => false,
    }
}

/// The tick count goes up by one, and wraps around at its end.
pub open spec fn next_frame(frame_ctr: u32) -> u32 {
    ((frame_ctr + 1) % 0x1_0000_0000) as u32
}

impl Runtime {
    /// The main loop at its start.
    pub open spec fn started(mode: RuntimeMode, diag_enabled: bool) -> Runtime {
        Runtime {
            mode,
            diag_enabled,
            frame_ctr: 0,
            last_cmd: None,
            last_sof: None,
            last_ig_frame_ctr: 0,
            last_sensor_response: None,
        }
    }

    /// The main loop after a command.
    pub open spec fn commanded(self, cmd: OrionCmdPacket) -> Runtime {
        Runtime { last_cmd: Some(cmd), ..self }
    }

    /// The main loop after a tick.
    pub open spec fn counted(self) -> Runtime {
        Runtime { frame_ctr: next_frame(self.frame_ctr), ..self }
    }

    /// The main loop after a response.
    pub open spec fn responded(self, resp: CigiResponse, now: u64) -> Runtime {
        match resp {
            CigiResponse::StartOfFrame(sof) => Runtime {
                last_sof: Some(now),
                last_ig_frame_ctr: sof.ig_frame_ctr,
                ..self
            },
            CigiResponse::SensorResponse(_) => Runtime { last_sensor_response: Some(now), ..self },
        }
    }

    /// The IG control of this tick.
    pub open spec fn control(self, timestamp: F64Bits) -> IgControl {
        IgControl {
            frame_ctr: self.frame_ctr,
            last_rcvd_ig_frame_ctr: (self.last_ig_frame_ctr % 0x1_0000) as u16,
            timestamp_valid: true,
            timestamp,
            ..IgControl::spec_default()
        }
    }

    /// The main loop at its start.
    pub fn new(mode: RuntimeMode, diag_enabled: bool) -> (r: Self)
        ensures
            r == Runtime::started(mode, diag_enabled),
            r == (Runtime {
                mode,
                diag_enabled,
                frame_ctr: 0,
                last_cmd: None,
                last_sof: None,
                last_ig_frame_ctr: 0,
                last_sensor_response: None,
            }),
    {
        Runtime {
            mode,
            diag_enabled,
            frame_ctr: 0,
            last_cmd: None,
            last_sof: None,
            last_ig_frame_ctr: 0,
            last_sensor_response: None,
        }
    }

    /// The scene generator is there: in bridge mode, with a recent start of frame.
    pub open spec fn sg_connected(self, now: u64) -> bool {
        self.mode == RuntimeMode::Bridge && recent(self.last_sof, now, SG_TIMEOUT)
    }

    /// What the tick with number `frame` does. With a scene generator, telemetry of
    /// our own is sent only while its responses are missing, and no diagnostics
    /// are reported.
    pub open spec fn plan(self, frame: u32, now: u64) -> TickPlan {
        let connected = self.sg_connected(now);
        TickPlan {
            to_scene_generator: connected,
            telemetry: frame % TELEMETRY_TICKS == 0 && !(connected && recent(
                self.last_sensor_response,
                now,
                SR_KEEPALIVE_STALE,
            )),
            diagnostics: !connected && self.diag_enabled && frame % DIAGNOSTICS_TICKS == 0,
        }
    }

    /// Counts a tick and tells what it does.
    pub fn on_tick(&mut self, now: u64) -> (r: TickPlan)
        ensures
            *final(self) == old(self).counted(),
            *final(self) == (Runtime { frame_ctr: next_frame(old(self).frame_ctr), ..*old(self) }),
            r == old(self).plan(next_frame(old(self).frame_ctr), now),
    {
        self.frame_ctr = self.frame_ctr.wrapping_add(1);
        let bridge: bool = match self.mode {
            RuntimeMode::Bridge => true,
            RuntimeMode::Simulator => false,
        };
        let connected: bool = bridge && is_recent(self.last_sof, now, SG_TIMEOUT);
        let due: bool = self.frame_ctr % TELEMETRY_TICKS == 0;
        if connected {
            let sr_fresh: bool = is_recent(self.last_sensor_response, now, SR_KEEPALIVE_STALE);
            TickPlan { to_scene_generator: true, telemetry: due && !sr_fresh, diagnostics: false }
        } else {
            TickPlan {
                to_scene_generator: false,
                telemetry: due,
                diagnostics: self.diag_enabled && self.frame_ctr % DIAGNOSTICS_TICKS == 0,
            }
        }
    }

    /// Remembers a command.
    pub fn on_command(&mut self, cmd: OrionCmdPacket)
        ensures
            *final(self) == old(self).commanded(cmd),
            *final(self) == (Runtime { last_cmd: Some(cmd), ..*old(self) }),
    {
        self.last_cmd = Some(cmd);
    }

    /// Takes a response of the scene generator. A sensor response is handed back,
    /// to be sent on as telemetry.
    pub fn on_response(&mut self, resp: CigiResponse, now: u64) -> (r: Option<
        SensorExtendedResponse,
    >)
        ensures
            *final(self) == old(self).responded(resp, now),
            r is Some <==> resp is SensorResponse,
            resp matches CigiResponse::StartOfFrame(sof) ==> r is None && *final(self) == (Runtime {
                last_sof: Some(now),
                last_ig_frame_ctr: sof.ig_frame_ctr,
                ..*old(self)
            }),
            resp matches CigiResponse::SensorResponse(ser) ==> r == Some(ser) && *final(self) == (
            Runtime { last_sensor_response: Some(now), ..*old(self) }),
    {
        match resp {
            CigiResponse::StartOfFrame(sof) => {
                self.last_sof = Some(now);
                self.last_ig_frame_ctr = sof.ig_frame_ctr;
                None
            },
            CigiResponse::SensorResponse(ser) => {
                self.last_sensor_response = Some(now);
                Some(ser)
            },
        }
    }

    /// The IG control of this tick at time `timestamp` (s). It echoes the low 16
    /// bits of the scene generator's last frame number.
    pub fn ig_control(&self, timestamp: F64Bits) -> (r: IgControl)
        ensures
            r == self.control(timestamp),
            r == (IgControl {
                frame_ctr: self.frame_ctr,
                last_rcvd_ig_frame_ctr: (self.last_ig_frame_ctr % 0x1_0000) as u16,
                timestamp_valid: true,
                timestamp,
                ..IgControl::spec_default()
            }),
    {
        IgControl {
            frame_ctr: self.frame_ctr,
            last_rcvd_ig_frame_ctr: (self.last_ig_frame_ctr % 0x1_0000) as u16,
            timestamp_valid: true,
            timestamp,
            ..IgControl::default()
        }
    }
}

/// The camera that the scene generator is told of; camera 0 for a number below 0.
pub open spec fn told_camera(camera_index: i8) -> u8 {
    if camera_index < 0 {
        0
    } else {
        camera_index as u8
    }
}

/// The field of view preset for a zoom.
pub open spec fn preset_of(scaled: u8) -> u8 {
    if scaled < WIRE_PRESET_COUNT {
        scaled
    } else {
        (WIRE_PRESET_COUNT - 1) as u8
    }
}

/// The camera that the scene generator is told of; camera 0 for a number below 0.
pub fn wire_camera(camera_index: i8) -> (r: u8)
    ensures
        r == told_camera(camera_index),
        r == (if camera_index < 0 {
            0
        } else {
            camera_index as int
        }),
{
    if camera_index < 0 {
        0
    } else {
        camera_index as u8
    }
}

/// The field of view preset for a zoom, where `scaled` is the zoom times the number
/// of presets, rounded down. Full zoom is the last preset.
pub fn preset_index(scaled: u8) -> (r: u8)
    ensures
        r == preset_of(scaled),
        r == (if scaled < WIRE_PRESET_COUNT {
            scaled as int
        } else {
            WIRE_PRESET_COUNT - 1
        }),
{
    if scaled < WIRE_PRESET_COUNT {
        scaled
    } else {
        WIRE_PRESET_COUNT - 1
    }
}

// ── Laws ───────────────────────────────────────────────────────────────

/// In simulator mode nothing goes to a scene generator, whatever was received.
pub proof fn simulator_mode_never_bridges(s: Runtime, frame: u32, now: u64)
    requires
        s.mode == RuntimeMode::Simulator,
    ensures
        !s.plan(frame, now).to_scene_generator,
        s.plan(frame, now).telemetry <==> frame % TELEMETRY_TICKS == 0,
{
}

/// A scene generator that has been silent for the timeout is not sent to, and the
/// gimbal's own telemetry takes over.
pub proof fn silent_scene_generator_dropped(s: Runtime, frame: u32, now: u64, sof: u64)
    requires
        s.last_sof == Some(sof),
        now - sof >= SG_TIMEOUT,
    ensures
        !s.plan(frame, now).to_scene_generator,
        s.plan(frame, now).telemetry <==> frame % TELEMETRY_TICKS == 0,
{
}

/// While the scene generator answers, no telemetry of our own is mixed in.
pub proof fn no_mixed_telemetry(s: Runtime, frame: u32, now: u64)
    requires
        s.sg_connected(now),
        recent(s.last_sensor_response, now, SR_KEEPALIVE_STALE),
    ensures
        !s.plan(frame, now).telemetry,
{
}

/// Of two arguments that ask for a mode, the later one counts.
pub proof fn last_mode_argument_wins(args: Seq<String>, arg: String)
    requires
        mode_argument(arg@) is Some,
    ensures
        mode_override(args.push(arg)) == mode_argument(arg@),
{
}

/// Other arguments do not matter to the mode.
pub proof fn other_arguments_ignored(args: Seq<String>, arg: String)
    requires
        mode_argument(arg@) is None,
    ensures
        mode_override(args.push(arg)) == mode_override(args),
{
    assert(args.push(arg).drop_last() =~= args);
}

/// The two arguments that ask for a mode, and no others.
pub proof fn mode_arguments(arg: Seq<char>)
    ensures
        mode_argument(arg) == Some(RuntimeMode::Simulator) <==> arg == "--simulator"@,
        mode_argument(arg) == Some(RuntimeMode::Bridge) <==> arg == "--bridge"@,
        arg != "--simulator"@ && arg != "--bridge"@ ==> mode_argument(arg) is None,
{
    reveal_strlit("--simulator");
    reveal_strlit("--bridge");
    assert("--simulator"@[2] != "--bridge"@[2]);
}

/// Diagnostics are asked for by an argument of their own, wherever it stands.
pub proof fn diagnostics_asked_anywhere(before: Seq<String>, arg: String, after: Seq<String>)
    ensures
        arg@ == "--diag"@ ==> asks_for_diagnostics(before + seq![arg] + after),
        arg@ != "--diag"@ ==> (asks_for_diagnostics(before + seq![arg] + after)
            <==> asks_for_diagnostics(before) || asks_for_diagnostics(after)),
        !asks_for_diagnostics(Seq::<String>::empty()),
{
    let all = before + seq![arg] + after;
    let n = before.len() as int;
    assert(all[n] == arg);
    assert(forall|i: int| 0 <= i < before.len() ==> #[trigger] before[i] == all[i]);
    assert forall|i: int| 0 <= i < after.len() implies #[trigger] after[i] == all[n + 1 + i] by {}
    assert forall|i: int| 0 <= i < all.len() && i != n implies (if i < n {
        all[i] == before[i]
    } else {
        all[i] == after[i - n - 1]
    }) by {}
    if asks_for_diagnostics(all) && arg@ != "--diag"@ {
        let i = choose|i: int| 0 <= i < all.len() && (#[trigger] all[i])@ == "--diag"@;
        if i < n {
            assert(before[i]@ == "--diag"@);
        } else {
            assert(after[i - n - 1]@ == "--diag"@);
        }
    }
}

/// Something that was recent a while ago was so at every moment since it happened, and
/// what is older than the limit is not recent.
pub proof fn recency_fades(at: u64, earlier: u64, later: u64, limit: u64)
    requires
        at <= earlier <= later,
    ensures
        recent(Some(at), later, limit) ==> recent(Some(at), earlier, limit),
        recent(Some(at), later, limit) <==> later < at + limit,
        !recent(None, later, limit),
{
}

/// A new main loop has seen nothing: no scene generator, no command, no tick.
pub proof fn starts_unconnected(mode: RuntimeMode, diag_enabled: bool, frame: u32, now: u64)
    ensures
        ({
            let s = Runtime::started(mode, diag_enabled);
            &&& s.mode == mode
            &&& s.diag_enabled == diag_enabled
            &&& s.frame_ctr == 0
            &&& s.last_cmd is None
            &&& !s.sg_connected(now)
            &&& !s.plan(frame, now).to_scene_generator
        }),
{
}

/// In bridge mode a start of frame connects the scene generator for the timeout, and its
/// frame number is echoed, the low 16 bits of it. A sensor response does neither.
pub proof fn start_of_frame_connects(s: Runtime, resp: CigiResponse, at: u64, now: u64, t: F64Bits)
    requires
        at <= now,
    ensures
        resp matches CigiResponse::StartOfFrame(sof) ==> {
            let after = s.responded(resp, at);
            &&& after.sg_connected(now) <==> s.mode == RuntimeMode::Bridge && now - at < SG_TIMEOUT
            &&& after.control(t).last_rcvd_ig_frame_ctr == sof.ig_frame_ctr % 0x1_0000
            &&& after.last_sensor_response == s.last_sensor_response
        },
        resp is SensorResponse ==> {
            let after = s.responded(resp, at);
            &&& after.sg_connected(now) == s.sg_connected(now)
            &&& after.control(t) == s.control(t)
            &&& after.last_sensor_response == Some(at)
        },
        s.responded(resp, at).last_cmd == s.last_cmd,
        s.responded(resp, at).mode == s.mode,
        s.responded(resp, at).diag_enabled == s.diag_enabled,
        s.responded(resp, at).frame_ctr == s.frame_ctr,
{
}

/// A connected scene generator is sent to, and gets telemetry of our own only while its
/// sensor responses are missing. Diagnostics are only reported without it, and only if
/// they are asked for.
pub proof fn connected_plan(s: Runtime, frame: u32, now: u64)
    ensures
        ({
            let plan = s.plan(frame, now);
            let connected = s.mode == RuntimeMode::Bridge && (s.last_sof matches Some(at) && now
                < at + 2_000_000_000);
            let answered = s.last_sensor_response matches Some(at) && now < at + 200_000_000;
            &&& plan.to_scene_generator <==> connected
            &&& plan.telemetry <==> frame % 5 == 0 && !(connected && answered)
            &&& plan.diagnostics <==> frame % 50 == 0 && s.diag_enabled && !connected
        }),
{
}

/// Ticks and commands leave everything else alone, and the last command counts.
pub proof fn ticks_and_commands_are_separate(s: Runtime, cmd: OrionCmdPacket)
    ensures
        s.commanded(cmd).last_cmd == Some(cmd),
        s.commanded(cmd).counted() == s.counted().commanded(cmd),
        s.counted().last_cmd == s.last_cmd,
        s.counted().last_sof == s.last_sof,
        s.counted().last_ig_frame_ctr == s.last_ig_frame_ctr,
        s.counted().last_sensor_response == s.last_sensor_response,
        s.counted().mode == s.mode,
        s.counted().diag_enabled == s.diag_enabled,
        s.frame_ctr < u32::MAX ==> s.counted().frame_ctr == s.frame_ctr + 1,
        s.frame_ctr == u32::MAX ==> s.counted().frame_ctr == 0,
        s.commanded(cmd).frame_ctr == s.frame_ctr,
        s.commanded(cmd).last_sof == s.last_sof,
        s.commanded(cmd).mode == s.mode,
{
}

/// An IG control counts the frames of the main loop and tells its time.
pub proof fn control_tells_time(s: Runtime, timestamp: F64Bits)
    ensures
        s.control(timestamp).frame_ctr == s.frame_ctr,
        s.control(timestamp).timestamp == timestamp,
        s.control(timestamp).timestamp_valid,
        s.control(timestamp).ig_mode == 0,
        s.control(timestamp).db_number == 0,
{
}

/// A camera that there is keeps its number. Presets follow the zoom, one for one, and
/// end at the last one.
pub proof fn wire_numbers(camera_index: i8, scaled: u8)
    ensures
        camera_index >= 0 ==> told_camera(camera_index) == camera_index,
        camera_index < 0 ==> told_camera(camera_index) == 0,
        scaled <= 2 ==> preset_of(scaled) == scaled,
        scaled > 2 ==> preset_of(scaled) == 2,
{
}

} // verus!
