//! One tick of the simulated gimbal.
//!
//! A tick has three parts:
//!
//! 1. [`GimbalSimulator::begin_tick`] tells what motion the tick asks for.
//! 2. [`GimbalSimulator::make_motion`] makes it. In geopoint mode,
//!    [`GimbalSimulator::set_target`] comes first.
//! 3. [`GimbalSimulator::finish_tick`] does the rest: coupling of the axes, settling,
//!    vibration, geolocation and time.
//!
//! [`ticked`] is the whole of it.

use vstd::prelude::*;

use crate::bits::F32Bits;
use crate::config::Config;
use crate::convert::to_cigi::seeks_position;
use crate::faults::{is_draw, lcg_after, lcg_after_adds, lcg_noise_f32, FaultState};
use crate::orion::OrionMode;
use crate::simulator::axis::{
    axis_after, finish_step, is_rate_limit, plan_for, Axis, AxisPlan,
};
use crate::simulator::{GimbalSimulator, LookPoint};

verus! {

/// Below this confidence a track is lost (binary32): 0.3.
pub const BREAK_LOCK: u32 = 0x3E99_999A;

/// Both axes closer to their targets than this (rad, binary32) are settled: 0.01.
pub const SETTLED: u32 = 0x3C23_D70A;

/// Zero, of either sign.
pub open spec fn is_zero(x: F32Bits) -> bool {
    let zero = F32Bits { bits: 0 };
    x.at_most(zero) && zero.at_most(x)
}

/// The motion that a tick asks for.
#[derive(Debug, Clone, Copy, PartialEq, Eq, Structural)]
pub enum Motion {
    /// Move both axes to their targets, at most at this rate (rad/s).
    Seek { max_rate: F32Bits },
    /// Ramp both rates to these commands (rad/s).
    Rate { pan_cmd: F32Bits, tilt_cmd: F32Bits },
    /// Aim at the commanded point on the earth, at most at this rate (rad/s).
    Geopoint { max_rate: F32Bits },
    /// Follow the tracked target.
    Track,
    /// Nothing is left to do.
    Hold,
}

impl GimbalSimulator {
    /// The largest rate of this tick: `throttled` under a thermal warning.
    pub open spec fn rate_limit(self, throttled: F32Bits) -> F32Bits {
        if self.faults.thermal_warning {
            throttled
        } else {
            self.config.max_slew_rate
        }
    }

    /// Time goes on, and so does the blackout after a camera switch.
    pub open spec fn counted(self, uptime_secs: F32Bits) -> GimbalSimulator {
        GimbalSimulator {
            faults: FaultState { uptime_secs, ..self.faults },
            camera_switch_remaining: if self.camera_switch_remaining > 0 {
                (self.camera_switch_remaining - 1) as u8
            } else {
                0
            },
            ..self
        }
    }

    /// The motion that the mode asks for. With a motor fault there is none.
    pub open spec fn motion(self, throttled: F32Bits) -> Motion {
        let max_rate = self.rate_limit(throttled);
        if self.faults.motor_fault {
            Motion::Hold
        } else {
            match self.mode {
                OrionMode::OrionModePosition => Motion::Seek { max_rate },
                OrionMode::OrionModePositionNoLimits => Motion::Seek { max_rate },
                OrionMode::OrionModeRate => Motion::Rate {
                    pan_cmd: self.pan_rate_cmd.spec_clamp(max_rate.spec_neg(), max_rate),
                    tilt_cmd: self.tilt_rate_cmd.spec_clamp(max_rate.spec_neg(), max_rate),
                },
                OrionMode::OrionModeGeopoint => Motion::Geopoint { max_rate },
                OrionMode::OrionModeTrack => if self.track_active {
                    Motion::Track
                } else {
                    Motion::Hold
                },
                _ => Motion::Hold,
            }
        }
    }

    /// Where there is no motion: the rates are zero, except that a lost track keeps
    /// them and takes over the target offset.
    pub open spec fn held(self) -> GimbalSimulator {
        if !self.faults.motor_fault && self.mode is OrionModeTrack {
            GimbalSimulator {
                prev_track_x: self.track_target[0],
                prev_track_y: self.track_target[1],
                ..self
            }
        } else {
            GimbalSimulator {
                pan_rate: F32Bits { bits: 0 },
                tilt_rate: F32Bits { bits: 0 },
                ..self
            }
        }
    }

    /// The gimbal after a tick has begun.
    pub open spec fn begun(self, uptime_secs: F32Bits, throttled: F32Bits) -> GimbalSimulator {
        let s = self.counted(uptime_secs);
        if s.motion(throttled) is Hold {
            s.held()
        } else {
            s
        }
    }

    /// Begins a tick and tells what motion it asks for. `uptime_secs` is the uptime
    /// at its end, `throttled` half of the largest slew rate.
    pub fn begin_tick(&mut self, uptime_secs: F32Bits, throttled: F32Bits) -> (r: Motion)
        requires
            old(self).mode is OrionModeRate && !old(self).faults.motor_fault ==> is_rate_limit(
                old(self).rate_limit(throttled),
            ),
        ensures
            *final(self) == old(self).begun(uptime_secs, throttled),
            r == old(self).motion(throttled),
            forall|made: Made| #[trigger] final(self).asks_for(made) <==> answers(r, made),
    {
        self.faults.tick(uptime_secs);
        if self.camera_switch_remaining > 0 {
            self.camera_switch_remaining = self.camera_switch_remaining - 1;
        }
        let max_rate = if self.faults.thermal_warning {
            throttled
        } else {
            self.config.max_slew_rate
        };
        if self.faults.motor_fault {
            self.pan_rate = F32Bits::from_bits(0);
            self.tilt_rate = F32Bits::from_bits(0);
            return Motion::Hold;
        }
        match self.mode {
            OrionMode::OrionModePosition | OrionMode::OrionModePositionNoLimits => Motion::Seek {
                max_rate,
            },
            OrionMode::OrionModeRate => Motion::Rate {
                pan_cmd: self.pan_rate_cmd.clamp(max_rate.neg(), max_rate),
                tilt_cmd: self.tilt_rate_cmd.clamp(max_rate.neg(), max_rate),
            },
            OrionMode::OrionModeGeopoint => Motion::Geopoint { max_rate },
            OrionMode::OrionModeTrack => {
                if self.track_active {
                    Motion::Track
                } else {
                    self.prev_track_x = self.track_target[0];
                    self.prev_track_y = self.track_target[1];
                    Motion::Hold
                }
            },
            _ => {
                self.pan_rate = F32Bits::from_bits(0);
                self.tilt_rate = F32Bits::from_bits(0);
                Motion::Hold
            },
        }
    }

    /// Both axes after a step by their plans.
    pub open spec fn stepped(
        self,
        pan_plan: AxisPlan,
        pan: Axis,
        tilt_plan: AxisPlan,
        tilt: Axis,
    ) -> GimbalSimulator {
        GimbalSimulator {
            pan: axis_after(pan_plan, self.pan, pan, self.target_pan).pos,
            pan_rate: axis_after(pan_plan, self.pan, pan, self.target_pan).rate,
            tilt: axis_after(tilt_plan, self.tilt, tilt, self.target_tilt).pos,
            tilt_rate: axis_after(tilt_plan, self.tilt, tilt, self.target_tilt).rate,
            ..self
        }
    }

    /// Both axes at these rates and angles, the angles within the limits.
    pub open spec fn moved(self, pan: Axis, tilt: Axis) -> GimbalSimulator {
        GimbalSimulator {
            pan: self.pan_limited(pan.pos),
            tilt: self.tilt_limited(tilt.pos),
            pan_rate: pan.rate,
            tilt_rate: tilt.rate,
            ..self
        }
    }

    /// The track is lost: the target nears the edge of the image, or is too
    /// uncertain.
    pub open spec fn loses_track(self, confidence: F32Bits) -> bool {
        ||| self.config.track_loss_threshold.below(self.track_target[0].spec_abs())
        ||| self.config.track_loss_threshold.below(self.track_target[1].spec_abs())
        ||| confidence.below(F32Bits { bits: BREAK_LOCK })
    }

    /// The gimbal after its motion.
    pub open spec fn after_motion(self, made: Made) -> GimbalSimulator {
        match made {
            Made::Steps { pan_plan, pan, tilt_plan, tilt } => self.stepped(
                pan_plan,
                pan,
                tilt_plan,
                tilt,
            ),
            Made::AtRate { pan, tilt } => self.moved(pan, tilt),
            Made::OnTrack { pan, tilt, confidence } => GimbalSimulator {
                track_active: self.track_active && !self.loses_track(confidence),
                prev_track_x: self.track_target[0],
                prev_track_y: self.track_target[1],
                ..self.moved(pan, tilt)
            },
            Made::Nothing => self,
        }
    }

    /// The gimbal asks for a motion of this kind.
    pub open spec fn asks_for(self, made: Made) -> bool {
        answers(self.motion(F32Bits { bits: 0 }), made)
    }

    /// Whether the gimbal asks for a motion of this kind.
    pub fn is_asked_for(&self, made: &Made) -> (r: bool)
        ensures
            r == self.asks_for(*made),
    {
        if self.faults.motor_fault {
            return matches!(made, Made::Nothing);
        }
        match self.mode {
            OrionMode::OrionModePosition
            | OrionMode::OrionModePositionNoLimits
            | OrionMode::OrionModeGeopoint => matches!(made, Made::Steps { .. }),
            OrionMode::OrionModeRate => matches!(made, Made::AtRate { .. }),
            OrionMode::OrionModeTrack => if self.track_active {
                matches!(made, Made::OnTrack { .. })
            } else {
                matches!(made, Made::Nothing)
            },
            _ => matches!(made, Made::Nothing),
        }
    }

    /// Makes the motion that is asked for. Steps stop rather than pass their targets; motion at a rate
    /// or on a track stops at the limits. A track may be lost.
    pub fn make_motion(&mut self, made: &Made)
        requires
            old(self).asks_for(*made),
            made is AtRate || made is OnTrack ==> old(self).limits_ok(),
        ensures
            *final(self) == old(self).after_motion(*made),
    {
        match made {
            Made::Steps { pan_plan, pan, tilt_plan, tilt } => {
                let pan_end = finish_step(*pan_plan, self.pan, *pan, self.target_pan);
                let tilt_end = finish_step(*tilt_plan, self.tilt, *tilt, self.target_tilt);
                self.pan = pan_end.pos;
                self.pan_rate = pan_end.rate;
                self.tilt = tilt_end.pos;
                self.tilt_rate = tilt_end.rate;
            },
            Made::AtRate { pan, tilt } => {
                self.move_within_limits(*pan, *tilt);
            },
            Made::OnTrack { pan, tilt, confidence } => {
                self.move_within_limits(*pan, *tilt);
                let threshold = self.config.track_loss_threshold;
                if threshold.lt(self.track_target[0].abs()) || threshold.lt(
                    self.track_target[1].abs(),
                ) || confidence.lt(F32Bits::from_bits(BREAK_LOCK)) {
                    self.track_active = false;
                }
                self.prev_track_x = self.track_target[0];
                self.prev_track_y = self.track_target[1];
            },
            Made::Nothing => {},
        }
    }

    /// Moves both axes, within the limits.
    fn move_within_limits(&mut self, pan: Axis, tilt: Axis)
        requires
            old(self).limits_ok(),
        ensures
            *final(self) == old(self).moved(pan, tilt),
    {
        self.pan_rate = pan.rate;
        self.tilt_rate = tilt.rate;
        self.pan = self.limit_pan(pan.pos);
        self.tilt = self.limit_tilt(tilt.pos);
    }

    /// The axes act on each other: the settings couple them and both are moving.
    pub open spec fn coupled(self) -> bool {
        &&& !is_zero(self.config.gyro_coupling_factor)
        &&& !is_zero(self.pan_rate)
        &&& !is_zero(self.tilt_rate)
    }

    /// Whether the axes act on each other.
    fn is_coupled(&self) -> (r: bool)
        ensures
            r == self.coupled(),
    {
        let zero = F32Bits::from_bits(0);
        !self.config.gyro_coupling_factor.eq_value(zero) && !self.pan_rate.eq_value(zero)
            && !self.tilt_rate.eq_value(zero)
    }

    /// What the coupling of the axes adds to pan and to tilt: the same amount with
    /// opposite signs, and nothing where they do not act on each other.
    pub open spec fn coupling_added(self, amount: F32Bits) -> Option<(F32Bits, F32Bits)> {
        if self.coupled() {
            Some((amount, amount.spec_neg()))
        } else {
            None
        }
    }

    /// What the coupling of the axes adds to pan and to tilt (rad). `amount` is the
    /// product of the coupling factor, both rates and the length of the tick.
    pub fn coupling_terms(&self, amount: F32Bits) -> (r: Option<(F32Bits, F32Bits)>)
        ensures
            r == self.coupling_added(amount),
    {
        if self.is_coupled() {
            Some((amount, amount.neg()))
        } else {
            None
        }
    }

    /// The angles with the coupling that is given, where the axes act on each
    /// other, and the present angles where they do not.
    pub open spec fn coupled_angles(self, pan: F32Bits, tilt: F32Bits) -> (F32Bits, F32Bits) {
        if self.coupled() {
            (pan, tilt)
        } else {
            (self.pan, self.tilt)
        }
    }

    /// The angles after the axes have acted on each other. `pan` and `tilt` are the
    /// angles with the coupling added.
    pub fn couple(&self, pan: F32Bits, tilt: F32Bits) -> (r: (F32Bits, F32Bits))
        ensures
            r == self.coupled_angles(pan, tilt),
    {
        if self.is_coupled() {
            (pan, tilt)
        } else {
            (self.pan, self.tilt)
        }
    }

    /// The noise of pan and tilt in this tick.
    pub open spec fn is_jitter_noise(self, r: (F32Bits, F32Bits)) -> bool {
        &&& is_draw(r.0, self.noise_seed, 1)
        &&& is_draw(r.1, self.noise_seed, 2)
    }

    /// The noise of pan and tilt in this tick.
    pub fn jitter_noise(&self) -> (r: (F32Bits, F32Bits))
        ensures
            self.is_jitter_noise(r),
            is_draw(r.0, self.noise_seed, 1),
            is_draw(r.1, self.noise_seed, 2),
    {
        proof {
            reveal_with_fuel(lcg_after, 3);
        }
        let mut seed: u32 = self.noise_seed;
        let pan = lcg_noise_f32(&mut seed);
        let tilt = lcg_noise_f32(&mut seed);
        (pan, tilt)
    }

    /// A position mode has both axes on target, the given ways left.
    pub open spec fn is_settled(self, pan_err: F32Bits, tilt_err: F32Bits) -> bool {
        &&& seeks_position(self.mode)
        &&& pan_err.spec_abs().below(F32Bits { bits: SETTLED })
        &&& tilt_err.spec_abs().below(F32Bits { bits: SETTLED })
    }

    /// The gimbal after the end of a tick. Two draws of noise are used up; frame
    /// counter and clock wrap around at their ends.
    pub open spec fn finished(self, r: TickResults) -> GimbalSimulator {
        GimbalSimulator {
            pan: self.coupled_angles(r.pan_coupled, r.tilt_coupled).0,
            tilt: self.coupled_angles(r.pan_coupled, r.tilt_coupled).1,
            settled: self.is_settled(r.pan_err, r.tilt_err),
            noise_seed: lcg_after(self.noise_seed, 2),
            jitter_phase: r.jitter_phase,
            jitter_phase_2: r.jitter_phase_2,
            pan_jitter: r.pan_jitter,
            tilt_jitter: r.tilt_jitter,
            pan_jittered: r.pan_jittered,
            tilt_jittered: r.tilt_jittered,
            frame_ctr: ((self.frame_ctr + 1) % 0x1_0000_0000) as u32,
            system_time_ms: ((self.system_time_ms + r.elapsed_ms) % 0x1_0000_0000) as u32,
            ..self.located(r.hit)
        }
    }

    /// Finishes a tick.
    pub fn finish_tick(&mut self, r: &TickResults)
        ensures
            *final(self) == old(self).finished(*r),
    {
        let (pan, tilt) = self.couple(r.pan_coupled, r.tilt_coupled);
        self.pan = pan;
        self.tilt = tilt;
        let seeks: bool = match self.mode {
            OrionMode::OrionModePosition
            | OrionMode::OrionModeGeopoint
            | OrionMode::OrionModePositionNoLimits => true,
            _ => false,
        };
        let near = F32Bits::from_bits(SETTLED);
        self.settled = seeks && r.pan_err.abs().lt(near) && r.tilt_err.abs().lt(near);
        proof {
            reveal_with_fuel(lcg_after, 3);
        }
        let mut seed: u32 = self.noise_seed;
        lcg_noise_f32(&mut seed);
        lcg_noise_f32(&mut seed);
        self.noise_seed = seed;
        self.jitter_phase = r.jitter_phase;
        self.jitter_phase_2 = r.jitter_phase_2;
        self.pan_jitter = r.pan_jitter;
        self.tilt_jitter = r.tilt_jitter;
        self.pan_jittered = r.pan_jittered;
        self.tilt_jittered = r.tilt_jittered;
        self.locate(r.hit);
        self.frame_ctr = self.frame_ctr.wrapping_add(1);
        self.system_time_ms = self.system_time_ms.wrapping_add(r.elapsed_ms);
    }
}

/// A motion, as far as arithmetic can tell it.
#[derive(Debug, Clone, Copy, PartialEq, Eq, Structural)]
pub enum Made {
    /// Steps of both axes towards their targets: the plan of each axis, and where it
    /// would take it.
    Steps { pan_plan: AxisPlan, pan: Axis, tilt_plan: AxisPlan, tilt: Axis },
    /// Where the rates would take both axes.
    AtRate { pan: Axis, tilt: Axis },
    /// Where the track controller would take both axes, and how certain it is.
    OnTrack { pan: Axis, tilt: Axis, confidence: F32Bits },
    /// None.
    Nothing,
}

/// What the end of a tick takes arithmetic to find.
#[derive(Debug, Clone, Copy, PartialEq, Eq, Structural)]
pub struct TickResults {
    /// Pan with the first of [`GimbalSimulator::coupling_terms`] added (rad).
    pub pan_coupled: F32Bits,
    /// Tilt with the second of [`GimbalSimulator::coupling_terms`] added (rad).
    pub tilt_coupled: F32Bits,
    /// The way left in pan, from the angles of [`GimbalSimulator::couple`] (rad).
    pub pan_err: F32Bits,
    /// The way left in tilt, from the angles of [`GimbalSimulator::couple`] (rad).
    pub tilt_err: F32Bits,
    /// Phase of the first resonance (cycles).
    pub jitter_phase: F32Bits,
    /// Phase of the second resonance (cycles).
    pub jitter_phase_2: F32Bits,
    /// Jitter in pan (rad), with the noise of [`GimbalSimulator::jitter_noise`].
    pub pan_jitter: F32Bits,
    /// Jitter in tilt (rad), with the noise of [`GimbalSimulator::jitter_noise`].
    pub tilt_jitter: F32Bits,
    /// Pan with jitter (rad).
    pub pan_jittered: F32Bits,
    /// Tilt with jitter (rad).
    pub tilt_jittered: F32Bits,
    /// The point looked at with jitter.
    pub hit: Option<LookPoint>,
    /// Length of the tick (ms).
    pub elapsed_ms: u32,
}

/// All that a tick takes arithmetic to find.
pub struct TickInputs {
    /// Uptime at the end of the tick (s).
    pub uptime_secs: F32Bits,
    /// Half of the largest slew rate (rad/s).
    pub throttled: F32Bits,
    /// Pan, tilt and wrapped pan that point at the commanded point on the earth.
    pub geopoint: (F32Bits, F32Bits, F32Bits),
    /// The motion.
    pub made: Made,
    /// The rest.
    pub results: TickResults,
}

/// A motion of the kind that is asked for.
pub open spec fn answers(motion: Motion, made: Made) -> bool {
    match motion {
        Motion::Seek { .. } => made is Steps,
        Motion::Geopoint { .. } => made is Steps,
        Motion::Rate { .. } => made is AtRate,
        Motion::Track => made is OnTrack,
        Motion::Hold => made is Nothing,
    }
}

/// The gimbal after its motion of a tick has been made.
pub open spec fn motion_made(s: GimbalSimulator, i: TickInputs) -> GimbalSimulator {
    let begun = s.begun(i.uptime_secs, i.throttled);
    let aimed = if s.motion(i.throttled) is Geopoint {
        begun.with_target(i.geopoint.0, i.geopoint.1, i.geopoint.2)
    } else {
        begun
    };
    aimed.after_motion(i.made)
}

/// The gimbal after a whole tick.
pub open spec fn ticked(s: GimbalSimulator, i: TickInputs) -> GimbalSimulator {
    motion_made(s, i).finished(i.results)
}

// ── Laws ───────────────────────────────────────────────────────────────

/// Coupling acts on pan and tilt with equal size and opposite signs. It does not act
/// at all where the factor is zero or an axis is at rest.
pub proof fn coupling_opposes(s: GimbalSimulator, amount: F32Bits)
    ensures
        s.coupling_added(amount) is Some <==> s.coupled(),
        is_zero(s.config.gyro_coupling_factor) || is_zero(s.pan_rate) || is_zero(s.tilt_rate)
            ==> s.coupling_added(amount) is None,
        s.coupling_added(amount) matches Some(added) ==> {
            &&& added.0 == amount
            &&& added.1 == added.0.spec_neg()
            &&& added.1.spec_abs() == added.0.spec_abs()
            &&& added.1.is_negative() <==> !added.0.is_negative()
        },
{
}

/// A gimbal with another coupling factor.
pub open spec fn with_factor(s: GimbalSimulator, factor: F32Bits) -> GimbalSimulator {
    GimbalSimulator { config: Config { gyro_coupling_factor: factor, ..s.config }, ..s }
}

/// A tick with coupling against the same tick without it. Where both axes move,
/// `amount` is added to pan and its negative to tilt, `plus` being the addition of
/// angles; where one of them rests, nothing is. The rates are the same.
pub proof fn coupling_shifts_axes(
    s: GimbalSimulator,
    factor: F32Bits,
    i: TickInputs,
    amount: F32Bits,
    plus: spec_fn(F32Bits, F32Bits) -> F32Bits,
)
    requires
        !is_zero(factor),
        answers(s.motion(i.throttled), i.made),
        motion_made(with_factor(s, factor), i).coupling_added(amount) matches Some(added) ==> {
            &&& i.results.pan_coupled == plus(motion_made(with_factor(s, factor), i).pan, added.0)
            &&& i.results.tilt_coupled == plus(
                motion_made(with_factor(s, factor), i).tilt,
                added.1,
            )
        },
    ensures
        ({
            let a = ticked(with_factor(s, factor), i);
            let b = ticked(with_factor(s, F32Bits { bits: 0 }), i);
            &&& a.pan_rate == b.pan_rate
            &&& a.tilt_rate == b.tilt_rate
            &&& if is_zero(b.pan_rate) || is_zero(b.tilt_rate) {
                a.pan == b.pan && a.tilt == b.tilt
            } else {
                a.pan == plus(b.pan, amount) && a.tilt == plus(b.tilt, amount.spec_neg())
            }
        }),
{
}

/// With a motor fault a tick moves nothing: both axes stop where they are.
pub proof fn motor_fault_stops(s: GimbalSimulator, i: TickInputs)
    requires
        s.faults.motor_fault,
        answers(s.motion(i.throttled), i.made),
    ensures
        s.motion(i.throttled) == Motion::Hold,
        ticked(s, i).pan == s.pan,
        ticked(s, i).tilt == s.tilt,
        ticked(s, i).pan_rate == (F32Bits { bits: 0 }),
        ticked(s, i).tilt_rate == (F32Bits { bits: 0 }),
{
}

/// A disabled gimbal does not move.
pub proof fn disabled_does_not_move(s: GimbalSimulator, i: TickInputs)
    requires
        s.mode is OrionModeDisabled,
        answers(s.motion(i.throttled), i.made),
    ensures
        s.motion(i.throttled) == Motion::Hold,
        ticked(s, i).pan == s.pan,
        ticked(s, i).tilt == s.tilt,
        ticked(s, i).pan_rate == (F32Bits { bits: 0 }),
        ticked(s, i).tilt_rate == (F32Bits { bits: 0 }),
{
}

/// Rate commands never ask for more than the rate limit of the tick.
pub proof fn rate_commands_limited(s: GimbalSimulator, throttled: F32Bits)
    requires
        is_rate_limit(s.rate_limit(throttled)),
        !s.pan_rate_cmd.nan(),
        !s.tilt_rate_cmd.nan(),
    ensures
        s.motion(throttled) matches Motion::Rate { pan_cmd, tilt_cmd }
            ==> pan_cmd.spec_abs().at_most(s.rate_limit(throttled))
            && tilt_cmd.spec_abs().at_most(s.rate_limit(throttled)),
{
}

/// Angles within the limits.
pub open spec fn within_limits(s: GimbalSimulator) -> bool {
    &&& !s.continuous_pan() ==> s.config.pan_limit.spec_neg().at_most(s.pan) && s.pan.at_most(
        s.config.pan_limit,
    )
    &&& s.config.tilt_min.at_most(s.tilt)
    &&& s.tilt.at_most(s.config.tilt_max)
}

/// A tick in rate mode or on a track leaves both axes within their limits, unless
/// the axes are coupled.
pub proof fn motion_within_limits(s: GimbalSimulator, i: TickInputs)
    requires
        s.limits_ok(),
        answers(s.motion(i.throttled), i.made),
        !motion_made(s, i).coupled(),
        i.made matches Made::AtRate { pan, tilt } ==> !pan.pos.nan() && !tilt.pos.nan(),
        i.made matches Made::OnTrack { pan, tilt, .. } ==> !pan.pos.nan() && !tilt.pos.nan(),
    ensures
        i.made is AtRate || i.made is OnTrack ==> within_limits(ticked(s, i)),
{
}

/// An axis is on its way to `target`: a step by its plan would take it to `moved`.
pub open spec fn under_way(
    err: F32Bits,
    stop_dist: F32Bits,
    moved: Axis,
    target: F32Bits,
) -> bool {
    &&& !err.nan()
    &&& !moved.pos.nan()
    &&& !target.nan()
    &&& !(plan_for(err, stop_dist) is AtTarget)
}

/// An axis that was `err` away from `target` has not passed it.
pub open spec fn not_beyond(err: F32Bits, pos: F32Bits, target: F32Bits) -> bool {
    if err.is_negative() {
        target.at_most(pos)
    } else {
        pos.at_most(target)
    }
}

/// A tick that seeks a target from below does not end above it, and one from above
/// does not end below it, unless the axes are coupled. This holds of each axis,
/// whatever the other one does. An axis that has arrived stays where it is and
/// rests.
pub proof fn seeking_does_not_overshoot(
    s: GimbalSimulator,
    i: TickInputs,
    pan_err: F32Bits,
    pan_stop: F32Bits,
    pan: Axis,
    tilt_err: F32Bits,
    tilt_stop: F32Bits,
    tilt: Axis,
)
    requires
        !motion_made(s, i).coupled(),
        answers(s.motion(i.throttled), i.made),
        i.made == (Made::Steps {
            pan_plan: plan_for(pan_err, pan_stop),
            pan,
            tilt_plan: plan_for(tilt_err, tilt_stop),
            tilt,
        }),
    ensures
        under_way(pan_err, pan_stop, pan, ticked(s, i).target_pan) ==> not_beyond(
            pan_err,
            ticked(s, i).pan,
            ticked(s, i).target_pan,
        ),
        under_way(tilt_err, tilt_stop, tilt, ticked(s, i).target_tilt) ==> not_beyond(
            tilt_err,
            ticked(s, i).tilt,
            ticked(s, i).target_tilt,
        ),
        plan_for(pan_err, pan_stop) is AtTarget ==> ticked(s, i).pan == s.pan && ticked(
            s,
            i,
        ).pan_rate == (F32Bits { bits: 0 }),
        plan_for(tilt_err, tilt_stop) is AtTarget ==> ticked(s, i).tilt == s.tilt && ticked(
            s,
            i,
        ).tilt_rate == (F32Bits { bits: 0 }),
{
}

/// In geopoint mode a tick never aims outside the limits.
pub proof fn geopoint_aims_within_limits(s: GimbalSimulator, i: TickInputs)
    requires
        s.limits_ok(),
        s.motion(i.throttled) is Geopoint,
        answers(s.motion(i.throttled), i.made),
        !i.geopoint.0.nan(),
        !i.geopoint.1.nan(),
    ensures
        !s.continuous_pan() ==> s.config.pan_limit.spec_neg().at_most(ticked(s, i).target_pan)
            && ticked(s, i).target_pan.at_most(s.config.pan_limit),
        s.config.tilt_min.at_most(ticked(s, i).target_tilt),
        ticked(s, i).target_tilt.at_most(s.config.tilt_max),
{
}

/// Ticks leave mode, commands, camera, zoom, platform and settings alone.
pub proof fn ticks_keep_commands(s: GimbalSimulator, i: TickInputs)
    requires
        answers(s.motion(i.throttled), i.made),
    ensures
        ticked(s, i).mode == s.mode,
        ticked(s, i).pan_rate_cmd == s.pan_rate_cmd,
        ticked(s, i).tilt_rate_cmd == s.tilt_rate_cmd,
        ticked(s, i).track_target == s.track_target,
        ticked(s, i).geopoint_lat == s.geopoint_lat,
        ticked(s, i).geopoint_lon == s.geopoint_lon,
        ticked(s, i).geopoint_alt == s.geopoint_alt,
        !(s.motion(i.throttled) is Geopoint) ==> ticked(s, i).target_pan == s.target_pan
            && ticked(s, i).target_tilt == s.target_tilt,
        ticked(s, i).camera_index == s.camera_index,
        ticked(s, i).zoom_level == s.zoom_level,
        ticked(s, i).hfov == s.hfov,
        ticked(s, i).vfov == s.vfov,
        ticked(s, i).pos_lat == s.pos_lat,
        ticked(s, i).pos_lon == s.pos_lon,
        ticked(s, i).pos_alt == s.pos_alt,
        ticked(s, i).config == s.config,
{
}

/// A track that is lost stays lost until it is commanded anew.
pub proof fn lost_track_stays_lost(s: GimbalSimulator, i: TickInputs)
    requires
        answers(s.motion(i.throttled), i.made),
        !s.track_active,
    ensures
        !ticked(s, i).track_active,
{
}

/// A target beyond the threshold costs the track, however certain it is.
pub proof fn track_lost_at_edge(s: GimbalSimulator, i: TickInputs)
    requires
        s.motion(i.throttled) is Track,
        answers(s.motion(i.throttled), i.made),
        s.config.track_loss_threshold.below(s.track_target[0].spec_abs())
            || s.config.track_loss_threshold.below(s.track_target[1].spec_abs()),
    ensures
        !ticked(s, i).track_active,
{
}

/// The gimbal after several ticks.
pub open spec fn ticked_all(s: GimbalSimulator, inputs: Seq<TickInputs>) -> GimbalSimulator
    decreases inputs.len(),
{
    if inputs.len() == 0 {
        s
    } else {
        ticked(ticked_all(s, inputs.drop_last()), inputs.last())
    }
}

/// A blackout goes on for exactly as many ticks as it has left, whatever the ticks
/// do otherwise. After a camera switch that is [`crate::simulator::CAMERA_SWITCH_FRAMES`] ticks.
pub proof fn blackout_lasts(s: GimbalSimulator, inputs: Seq<TickInputs>)
    ensures
        ticked_all(s, inputs).camera_switch_remaining == (if inputs.len()
            < s.camera_switch_remaining {
            s.camera_switch_remaining - inputs.len()
        } else {
            0
        }),
    decreases inputs.len(),
{
    if inputs.len() > 0 {
        blackout_lasts(s, inputs.drop_last());
    }
}

/// Each tick is counted, and counting starts anew at the end of the range.
pub proof fn frames_counted(s: GimbalSimulator, inputs: Seq<TickInputs>)
    ensures
        ticked_all(s, inputs).frame_ctr == (s.frame_ctr + inputs.len()) % 0x1_0000_0000,
    decreases inputs.len(),
{
    if inputs.len() > 0 {
        frames_counted(s, inputs.drop_last());
    }
}

/// What each mode asks for: the position modes seek their target, geopoint aims first,
/// rate mode follows its commands, and a track is followed while it lasts. All of them
/// at the largest slew rate, or throttled under a thermal warning.
pub proof fn motion_follows_mode(s: GimbalSimulator, throttled: F32Bits)
    requires
        !s.faults.motor_fault,
    ensures
        ({
            let limit = if s.faults.thermal_warning { throttled } else { s.config.max_slew_rate };
            let motion = s.motion(throttled);
            &&& s.mode is OrionModePosition || s.mode is OrionModePositionNoLimits ==> motion == (
            Motion::Seek { max_rate: limit })
            &&& s.mode is OrionModeGeopoint ==> motion == (Motion::Geopoint { max_rate: limit })
            &&& s.mode is OrionModeTrack && s.track_active ==> motion is Track
            &&& s.mode is OrionModeTrack && !s.track_active ==> motion is Hold
            &&& s.mode is OrionModeRate ==> (motion matches Motion::Rate { pan_cmd, tilt_cmd } && {
                &&& s.pan_rate_cmd.spec_abs().at_most(limit) ==> pan_cmd == s.pan_rate_cmd
                &&& s.tilt_rate_cmd.spec_abs().at_most(limit) ==> tilt_cmd == s.tilt_rate_cmd
                &&& limit.rank() > 0 && limit.below(s.pan_rate_cmd) ==> pan_cmd.rank()
                    == limit.rank()
                &&& limit.rank() > 0 && limit.below(s.tilt_rate_cmd) ==> tilt_cmd.rank()
                    == limit.rank()
                &&& limit.rank() > 0 && s.pan_rate_cmd.below(limit.spec_neg()) ==> pan_cmd.rank()
                    == -limit.rank()
                &&& limit.rank() > 0 && s.tilt_rate_cmd.below(limit.spec_neg()) ==> tilt_cmd.rank()
                    == -limit.rank()
            })
        }),
{
}

/// A tick that seeks moves each axis by its own step: pan ends where its step takes it
/// or on its own target, and tilt where its step takes it or on its own. An axis that
/// its step does not take past the target makes the whole step.
pub proof fn axes_step_separately(
    s: GimbalSimulator,
    i: TickInputs,
    pan_err: F32Bits,
    pan_stop: F32Bits,
    pan: Axis,
    tilt_err: F32Bits,
    tilt_stop: F32Bits,
    tilt: Axis,
)
    requires
        s.motion(i.throttled) is Seek,
        !motion_made(s, i).coupled(),
        i.made == (Made::Steps {
            pan_plan: plan_for(pan_err, pan_stop),
            pan,
            tilt_plan: plan_for(tilt_err, tilt_stop),
            tilt,
        }),
        under_way(pan_err, pan_stop, pan, s.target_pan),
        under_way(tilt_err, tilt_stop, tilt, s.target_tilt),
    ensures
        not_beyond(pan_err, pan.pos, s.target_pan) ==> ticked(s, i).pan == pan.pos && ticked(
            s,
            i,
        ).pan_rate == pan.rate,
        not_beyond(tilt_err, tilt.pos, s.target_tilt) ==> ticked(s, i).tilt == tilt.pos && ticked(
            s,
            i,
        ).tilt_rate == tilt.rate,
        !not_beyond(pan_err, pan.pos, s.target_pan) ==> ticked(s, i).pan == s.target_pan && is_zero(
            ticked(s, i).pan_rate,
        ),
        !not_beyond(tilt_err, tilt.pos, s.target_tilt) ==> ticked(s, i).tilt == s.target_tilt
            && is_zero(ticked(s, i).tilt_rate),
{
}

/// A tick in rate mode or on a track takes each axis to its own angle and rate; an
/// angle beyond a limit becomes that limit, on its own side.
pub proof fn rates_move_their_axes(s: GimbalSimulator, i: TickInputs, pan: Axis, tilt: Axis)
    requires
        s.limits_ok(),
        !motion_made(s, i).coupled(),
        i.made == (Made::AtRate { pan, tilt }) || (i.made matches Made::OnTrack { pan: p, tilt: t, .. }
            && p == pan && t == tilt),
        answers(s.motion(i.throttled), i.made),
        !pan.pos.nan(),
        !tilt.pos.nan(),
    ensures
        ({
            let after = ticked(s, i);
            let limit = s.config.pan_limit;
            &&& after.pan_rate == pan.rate
            &&& after.tilt_rate == tilt.rate
            &&& s.continuous_pan() || pan.pos.spec_abs().at_most(limit) ==> after.pan == pan.pos
            &&& !s.continuous_pan() && limit.below(pan.pos) ==> after.pan.rank() == limit.rank()
            &&& !s.continuous_pan() && pan.pos.below(limit.spec_neg()) ==> after.pan.rank()
                == -limit.rank()
            &&& s.config.tilt_min.at_most(tilt.pos) && tilt.pos.at_most(s.config.tilt_max)
                ==> after.tilt == tilt.pos
            &&& tilt.pos.below(s.config.tilt_min) ==> after.tilt == s.config.tilt_min
            &&& s.config.tilt_max.below(tilt.pos) ==> after.tilt == s.config.tilt_max
        }),
{
}

/// A track goes on through a tick exactly as long as the target stays within the
/// threshold on both axes of the image and the confidence does not fall below the
/// limit. The offsets of this tick are remembered, horizontal as horizontal and
/// vertical as vertical.
pub proof fn track_goes_on(s: GimbalSimulator, i: TickInputs, confidence: F32Bits)
    requires
        s.motion(i.throttled) is Track,
        i.made matches Made::OnTrack { confidence: c, .. } && c == confidence,
        !confidence.nan(),
        !s.config.track_loss_threshold.nan(),
        !s.track_target[0].nan(),
        !s.track_target[1].nan(),
    ensures
        ticked(s, i).track_active <==> {
            &&& s.track_target[0].spec_abs().at_most(s.config.track_loss_threshold)
            &&& s.track_target[1].spec_abs().at_most(s.config.track_loss_threshold)
            &&& (F32Bits { bits: BREAK_LOCK }).at_most(confidence)
        },
        ticked(s, i).prev_track_x == s.track_target[0],
        ticked(s, i).prev_track_y == s.track_target[1],
{
}

/// In track mode a tick without a track to follow keeps the rates and remembers the
/// offsets.
pub proof fn lost_track_coasts(s: GimbalSimulator, i: TickInputs)
    requires
        s.mode is OrionModeTrack,
        !s.track_active,
        !s.faults.motor_fault,
        i.made is Nothing,
    ensures
        ticked(s, i).pan_rate == s.pan_rate,
        ticked(s, i).tilt_rate == s.tilt_rate,
        ticked(s, i).prev_track_x == s.track_target[0],
        ticked(s, i).prev_track_y == s.track_target[1],
{
}

/// In geopoint mode a tick aims where the point on the earth is: at the pan and the
/// tilt that point at it, as far as the limits let them.
pub proof fn geopoint_is_aimed_at(s: GimbalSimulator, i: TickInputs)
    requires
        s.motion(i.throttled) is Geopoint,
        i.made is Steps,
        s.limits_ok(),
        s.config.tilt_min.at_most(i.geopoint.1),
        i.geopoint.1.at_most(s.config.tilt_max),
        !s.continuous_pan() ==> i.geopoint.0.spec_abs().at_most(s.config.pan_limit),
    ensures
        s.continuous_pan() ==> ticked(s, i).target_pan == i.geopoint.2,
        !s.continuous_pan() ==> ticked(s, i).target_pan == i.geopoint.0,
        ticked(s, i).target_tilt == i.geopoint.1,
        !ticked(s, i).at_pan_limit,
        !ticked(s, i).at_tilt_limit,
{
}

/// A gimbal is settled exactly in a position mode with both axes near their targets.
pub proof fn settled_near_targets(s: GimbalSimulator, i: TickInputs)
    requires
        answers(s.motion(i.throttled), i.made),
    ensures
        ticked(s, i).settled <==> {
            &&& s.mode is OrionModePosition || s.mode is OrionModePositionNoLimits || s.mode
                is OrionModeGeopoint
            &&& i.results.pan_err.spec_abs().below(F32Bits { bits: SETTLED })
            &&& i.results.tilt_err.spec_abs().below(F32Bits { bits: SETTLED })
        },
{
}

/// The end of a tick takes over what was computed, each result in its own field: jitter
/// of pan and of tilt, phases, angles with jitter, the point looked at. Clock and
/// uptime go on by the length of the tick.
pub proof fn tick_takes_results(s: GimbalSimulator, i: TickInputs)
    requires
        answers(s.motion(i.throttled), i.made),
    ensures
        ({
            let after = ticked(s, i);
            let r = i.results;
            &&& after.jitter_phase == r.jitter_phase
            &&& after.jitter_phase_2 == r.jitter_phase_2
            &&& after.pan_jitter == r.pan_jitter
            &&& after.tilt_jitter == r.tilt_jitter
            &&& after.pan_jittered == r.pan_jittered
            &&& after.tilt_jittered == r.tilt_jittered
            &&& after.faults.uptime_secs == i.uptime_secs
            &&& after.system_time_ms as int % 0x1_0000_0000 == (s.system_time_ms + r.elapsed_ms)
                % 0x1_0000_0000
            &&& r.hit matches Some(p) ==> {
                &&& after.look_lat == p.lat
                &&& after.look_lon == p.lon
                &&& after.look_alt == p.alt
                &&& !s.faults.laser_fault ==> after.slant_range_m == p.slant_range_m
            }
            &&& r.hit is None ==> {
                &&& after.look_lat == s.look_lat
                &&& after.look_lon == s.look_lon
                &&& after.look_alt == s.look_alt
            }
        }),
{
}

/// A tick sets no fault and clears none.
pub proof fn ticks_keep_faults(s: GimbalSimulator, i: TickInputs)
    requires
        answers(s.motion(i.throttled), i.made),
    ensures
        ticked(s, i).faults == (FaultState { uptime_secs: i.uptime_secs, ..s.faults }),
{
}

/// The noise of pan and tilt are the next two draws, in this order, and a tick uses
/// them up: the next tick draws the two after them.
pub proof fn no_draw_used_twice(
    s: GimbalSimulator,
    i: TickInputs,
    now: (F32Bits, F32Bits),
    next: (F32Bits, F32Bits),
)
    requires
        answers(s.motion(i.throttled), i.made),
        s.is_jitter_noise(now),
        ticked(s, i).is_jitter_noise(next),
    ensures
        is_draw(now.0, s.noise_seed, 1),
        is_draw(now.1, s.noise_seed, 2),
        is_draw(next.0, s.noise_seed, 3),
        is_draw(next.1, s.noise_seed, 4),
{
    lcg_after_adds(s.noise_seed, 2, 1);
    lcg_after_adds(s.noise_seed, 2, 2);
}

/// Each motion that is asked for is answered by one of its own kind, and by no other:
/// seeking and aiming by steps, rates by a motion at rates, a track by one on the track,
/// and holding by none.
pub proof fn motions_answered_in_kind(motion: Motion, made: Made)
    ensures
        made is Steps ==> (answers(motion, made) <==> motion is Seek || motion is Geopoint),
        made is AtRate ==> (answers(motion, made) <==> motion is Rate),
        made is OnTrack ==> (answers(motion, made) <==> motion is Track),
        made is Nothing ==> (answers(motion, made) <==> motion is Hold),
{
}

/// Zero of either sign is zero, and nothing else is.
pub proof fn zero_is_zero(x: F32Bits)
    ensures
        is_zero(x) <==> x.magnitude() == 0,
        is_zero(x) <==> is_zero(x.spec_neg()),
{
}

/// A gimbal asks for the motion of its mode, whatever the rate limit is.
pub proof fn kind_of_motion_needs_no_limit(s: GimbalSimulator, throttled: F32Bits, made: Made)
    ensures
        s.asks_for(made) <==> answers(s.motion(throttled), made),
        s.faults.motor_fault ==> (s.asks_for(made) <==> made is Nothing),
{
}

} // verus!
