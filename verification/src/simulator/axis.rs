//! Motion of one axis.
//!
//! An axis follows a trapezoidal velocity profile: it speeds up towards its
//! target within a rate limit, brakes in time and never passes the target.

use vstd::prelude::*;

use crate::bits::{F32Bits, F32_ONE};

verus! {

/// An axis closer to its target than this (rad, binary32) is there: 1e-6.
pub const ARRIVED: u32 = 0x3586_37BD;

/// Axes closer to their targets than this (rad, binary32) are not coordinated:
/// 0.001.
pub const COORDINATED: u32 = 0x3A83_126F;

/// What an axis does next.
#[derive(Debug, Clone, Copy, PartialEq, Eq, Structural)]
pub enum AxisPlan {
    /// Stay: the target is reached.
    AtTarget,
    /// Slow down on the way in direction `dir` (1 or -1).
    Brake { dir: F32Bits },
    /// Speed up in direction `dir` (1 or -1).
    Accelerate { dir: F32Bits },
}

/// What an axis does next, `err` away from its target, when it takes `stop_dist`
/// to stop.
pub open spec fn plan_for(err: F32Bits, stop_dist: F32Bits) -> AxisPlan {
    if err.spec_abs().below(F32Bits { bits: ARRIVED }) {
        AxisPlan::AtTarget
    } else if err.spec_abs().at_most(stop_dist) {
        AxisPlan::Brake { dir: err.spec_signum() }
    } else {
        AxisPlan::Accelerate { dir: err.spec_signum() }
    }
}

/// What an axis does next: `err` is the way left to its target, `stop_dist` the
/// way it takes to stop from its present rate.
pub fn plan_axis(err: F32Bits, stop_dist: F32Bits) -> (r: AxisPlan)
    ensures
        r == plan_for(err, stop_dist),
{
    let distance = err.abs();
    if distance.lt(F32Bits::from_bits(ARRIVED)) {
        return AxisPlan::AtTarget;
    }
    let dir = err.signum();
    if distance.le(stop_dist) {
        AxisPlan::Brake { dir }
    } else {
        AxisPlan::Accelerate { dir }
    }
}

/// `x` times the direction `dir`.
pub open spec fn directed(dir: F32Bits, x: F32Bits) -> F32Bits {
    if dir.nan() {
        dir
    } else if dir.is_negative() {
        x.spec_neg()
    } else {
        x
    }
}

/// `x` times the direction `dir` (1 or -1).
pub fn along(dir: F32Bits, x: F32Bits) -> (r: F32Bits)
    ensures
        r == directed(dir, x),
{
    if dir.is_nan() {
        dir
    } else if dir.bits >= 0x8000_0000 {
        x.neg()
    } else {
        x
    }
}

/// The change of rate (rad/s) in one step that can change the rate by `push`.
pub open spec fn rate_change(plan: AxisPlan, push: F32Bits) -> F32Bits {
    match plan {
        AxisPlan::AtTarget => F32Bits { bits: 0 },
        AxisPlan::Brake { dir } => directed(dir, push).spec_neg(),
        AxisPlan::Accelerate { dir } => directed(dir, push),
    }
}

/// What to add to the rate in one step that can change it by `push`.
pub fn plan_rate_change(plan: AxisPlan, push: F32Bits) -> (r: F32Bits)
    ensures
        r == rate_change(plan, push),
{
    match plan {
        AxisPlan::AtTarget => F32Bits::from_bits(0),
        AxisPlan::Brake { dir } => along(dir, push).neg(),
        AxisPlan::Accelerate { dir } => along(dir, push),
    }
}

/// The rate of the next step, where `changed` is the present rate with its change
/// added. Braking stops and does not reverse; speeding up ends at `max_rate`.
pub open spec fn rate_for(plan: AxisPlan, changed: F32Bits, max_rate: F32Bits) -> F32Bits {
    match plan {
        AxisPlan::AtTarget => F32Bits { bits: 0 },
        AxisPlan::Brake { dir } => if directed(dir, changed).below(F32Bits { bits: 0 }) {
            F32Bits { bits: 0 }
        } else {
            changed
        },
        AxisPlan::Accelerate { .. } => changed.spec_clamp(max_rate.spec_neg(), max_rate),
    }
}

/// A rate that can bound others from both sides.
pub open spec fn is_rate_limit(max_rate: F32Bits) -> bool {
    max_rate.spec_neg().at_most(max_rate)
}

/// The rate of the next step, where `changed` is the present rate with its change
/// added.
pub fn next_rate(plan: AxisPlan, changed: F32Bits, max_rate: F32Bits) -> (r: F32Bits)
    requires
        plan is Accelerate ==> is_rate_limit(max_rate),
    ensures
        r == rate_for(plan, changed, max_rate),
{
    match plan {
        AxisPlan::AtTarget => F32Bits::from_bits(0),
        AxisPlan::Brake { dir } => if along(dir, changed).lt(F32Bits::from_bits(0)) {
            F32Bits::from_bits(0)
        } else {
            changed
        },
        AxisPlan::Accelerate { .. } => changed.clamp(max_rate.neg(), max_rate),
    }
}

/// Position and rate of an axis.
#[derive(Debug, Clone, Copy, PartialEq, Eq, Structural)]
pub struct Axis {
    pub pos: F32Bits,
    pub rate: F32Bits,
}

/// An axis that would pass `target` in direction `dir` stops there.
pub open spec fn stopped_at(dir: F32Bits, moved: Axis, target: F32Bits) -> Axis {
    let zero = F32Bits { bits: 0 };
    if (zero.below(dir) && target.below(moved.pos)) || (dir.below(zero) && moved.pos.below(
        target,
    )) {
        Axis { pos: target, rate: zero }
    } else {
        moved
    }
}

/// The axis after a step that would take it from `pos` to `moved`.
pub open spec fn axis_after(
    plan: AxisPlan,
    pos: F32Bits,
    moved: Axis,
    target: F32Bits,
) -> Axis {
    match plan {
        AxisPlan::AtTarget => Axis { pos, rate: F32Bits { bits: 0 } },
        AxisPlan::Brake { dir } => stopped_at(dir, moved, target),
        AxisPlan::Accelerate { dir } => stopped_at(dir, moved, target),
    }
}

/// The axis after a step that would take it from `pos` to `moved`. It stops
/// rather than pass `target`.
pub fn finish_step(plan: AxisPlan, pos: F32Bits, moved: Axis, target: F32Bits) -> (r: Axis)
    ensures
        r == axis_after(plan, pos, moved, target),
{
    let zero = F32Bits::from_bits(0);
    let dir = match plan {
        AxisPlan::AtTarget => {
            return Axis { pos, rate: zero };
        },
        AxisPlan::Brake { dir } => dir,
        AxisPlan::Accelerate { dir } => dir,
    };
    if (zero.lt(dir) && target.lt(moved.pos)) || (dir.lt(zero) && moved.pos.lt(target)) {
        Axis { pos: target, rate: zero }
    } else {
        moved
    }
}

/// How a rate follows its command.
#[derive(Debug, Clone, Copy, PartialEq, Eq, Structural)]
pub enum Ramp {
    /// The command is within reach.
    Reach,
    /// Change the rate by so much.
    Step(F32Bits),
}

/// How a rate follows a command that is `delta` away, when it can change by
/// `max_delta`.
pub open spec fn ramp_for(delta: F32Bits, max_delta: F32Bits) -> Ramp {
    if delta.spec_abs().at_most(max_delta) {
        Ramp::Reach
    } else {
        Ramp::Step(directed(delta.spec_signum(), max_delta))
    }
}

/// How a rate follows a command that is `delta` away, when it can change by
/// `max_delta`.
pub fn ramp_rate(delta: F32Bits, max_delta: F32Bits) -> (r: Ramp)
    ensures
        r == ramp_for(delta, max_delta),
{
    if delta.abs().le(max_delta) {
        Ramp::Reach
    } else {
        Ramp::Step(along(delta.signum(), max_delta))
    }
}

/// Rate limits of pan and tilt that let both axes arrive together: each axis gets
/// its share, unless one of them is nearly there.
pub open spec fn coordinated(
    pan_err: F32Bits,
    tilt_err: F32Bits,
    pan_share: F32Bits,
    tilt_share: F32Bits,
    max_rate: F32Bits,
) -> (F32Bits, F32Bits) {
    let near = F32Bits { bits: COORDINATED };
    if near.below(pan_err.spec_abs()) && near.below(tilt_err.spec_abs()) {
        (pan_share.spec_min(max_rate), tilt_share.spec_min(max_rate))
    } else {
        (max_rate, max_rate)
    }
}

/// Rate limits of pan and tilt that let both axes arrive together. `pan_share`
/// and `tilt_share` are the ways left, divided by the time of the slower axis.
pub fn coordinated_rates(
    pan_err: F32Bits,
    tilt_err: F32Bits,
    pan_share: F32Bits,
    tilt_share: F32Bits,
    max_rate: F32Bits,
) -> (r: (F32Bits, F32Bits))
    ensures
        r == coordinated(pan_err, tilt_err, pan_share, tilt_share, max_rate),
{
    let near = F32Bits::from_bits(COORDINATED);
    if near.lt(pan_err.abs()) && near.lt(tilt_err.abs()) {
        (pan_share.min(max_rate), tilt_share.min(max_rate))
    } else {
        (max_rate, max_rate)
    }
}

// ── Laws ───────────────────────────────────────────────────────────────

/// An axis on its way up does not end above its target, and one on its way down
/// does not end below it.
pub proof fn no_overshoot(
    err: F32Bits,
    stop_dist: F32Bits,
    pos: F32Bits,
    moved: Axis,
    target: F32Bits,
)
    requires
        !err.nan(),
        !moved.pos.nan(),
        !target.nan(),
        !(plan_for(err, stop_dist) is AtTarget),
    ensures
        !err.is_negative() ==> axis_after(plan_for(err, stop_dist), pos, moved, target).pos.at_most(
            target,
        ),
        err.is_negative() ==> target.at_most(
            axis_after(plan_for(err, stop_dist), pos, moved, target).pos,
        ),
{
}

/// An axis that is stopped at its target rests there.
pub proof fn stops_at_rest(plan: AxisPlan, pos: F32Bits, moved: Axis, target: F32Bits)
    ensures
        plan is AtTarget ==> axis_after(plan, pos, moved, target) == (Axis {
            pos,
            rate: F32Bits { bits: 0 },
        }),
        axis_after(plan, pos, moved, target) == moved || axis_after(plan, pos, moved, target).rate
            == (F32Bits { bits: 0 }),
{
}

/// Speeding up stays within the rate limit, in either direction.
pub proof fn speed_limited(dir: F32Bits, changed: F32Bits, max_rate: F32Bits)
    requires
        !changed.nan(),
        is_rate_limit(max_rate),
    ensures
        rate_for(AxisPlan::Accelerate { dir }, changed, max_rate).spec_abs().at_most(max_rate),
{
}

/// Braking does not reverse the direction.
pub proof fn braking_does_not_reverse(dir: F32Bits, changed: F32Bits, max_rate: F32Bits)
    requires
        !dir.nan(),
        !changed.nan(),
    ensures
        (F32Bits { bits: 0 }).at_most(
            directed(dir, rate_for(AxisPlan::Brake { dir }, changed, max_rate)),
        ),
{
}

/// Coordination never raises the rate limit.
pub proof fn coordination_stays_within_limit(
    pan_err: F32Bits,
    tilt_err: F32Bits,
    pan_share: F32Bits,
    tilt_share: F32Bits,
    max_rate: F32Bits,
)
    requires
        !max_rate.nan(),
    ensures
        coordinated(pan_err, tilt_err, pan_share, tilt_share, max_rate).0.at_most(max_rate),
        coordinated(pan_err, tilt_err, pan_share, tilt_share, max_rate).1.at_most(max_rate),
{
}

/// The direction of a plan is that of the way left: up to a target above, down to
/// one below, and never anything else.
pub proof fn plan_heads_for_target(err: F32Bits, stop_dist: F32Bits)
    requires
        !err.nan(),
        !stop_dist.nan(),
    ensures
        plan_for(err, stop_dist) is AtTarget <==> err.spec_abs().below(F32Bits { bits: ARRIVED }),
        plan_for(err, stop_dist) is Brake ==> err.spec_abs().at_most(stop_dist),
        plan_for(err, stop_dist) is Accelerate ==> stop_dist.below(err.spec_abs()),
        plan_for(err, stop_dist) matches AxisPlan::Brake { dir } ==> heads_along(dir, err),
        plan_for(err, stop_dist) matches AxisPlan::Accelerate { dir } ==> heads_along(dir, err),
{
}

/// `dir` is 1 with the sign of `err`.
pub open spec fn heads_along(dir: F32Bits, err: F32Bits) -> bool {
    &&& !dir.nan()
    &&& dir.is_negative() == err.is_negative()
    &&& dir.spec_abs() == (F32Bits { bits: F32_ONE })
}

/// An axis further from its target than it takes to stop speeds up towards it, and
/// one within that distance slows down: the change of rate has the size of `push`,
/// and the sign of the way left or the opposite of it. At the target nothing
/// changes.
pub proof fn rate_changes_towards_target(err: F32Bits, stop_dist: F32Bits, push: F32Bits)
    requires
        !err.nan(),
        !stop_dist.nan(),
        !push.nan(),
        !push.is_negative(),
    ensures
        ({
            let change = rate_change(plan_for(err, stop_dist), push);
            let distance = err.spec_abs();
            if distance.below(F32Bits { bits: ARRIVED }) {
                change.rank() == 0
            } else if stop_dist.below(distance) {
                &&& change.rank() == if err.rank() < 0 { -push.rank() } else { push.rank() }
                &&& change.is_negative() == err.is_negative()
            } else {
                &&& change.rank() == if err.rank() < 0 { push.rank() } else { -push.rank() }
                &&& change.is_negative() == !err.is_negative()
            }
        }),
{
}

/// From rest an axis moves towards its target: its first rate has the sign of the way
/// left, and is as large as `push` and the rate limit allow.
pub proof fn first_step_heads_for_target(
    err: F32Bits,
    stop_dist: F32Bits,
    push: F32Bits,
    max_rate: F32Bits,
)
    requires
        !err.nan(),
        !push.nan(),
        !push.is_negative(),
        is_rate_limit(max_rate),
        stop_dist.below(err.spec_abs()),
        !err.spec_abs().below(F32Bits { bits: ARRIVED }),
    ensures
        ({
            let plan = plan_for(err, stop_dist);
            let rate = rate_for(plan, rate_change(plan, push), max_rate);
            let size = if push.rank() < max_rate.rank() { push.rank() } else { max_rate.rank() };
            &&& !rate.nan()
            &&& rate.rank() == if err.rank() < 0 { -size } else { size }
        }),
{
}

/// A step in the direction of the target ends between where it began and the target,
/// from above as from below: the axis is nearer to its target, and not beyond.
pub proof fn step_nears_target(
    err: F32Bits,
    stop_dist: F32Bits,
    pos: F32Bits,
    moved: Axis,
    target: F32Bits,
)
    requires
        !err.nan(),
        !(plan_for(err, stop_dist) is AtTarget),
        err.rank() < 0 ==> target.at_most(pos) && moved.pos.at_most(pos),
        err.rank() > 0 ==> pos.at_most(target) && pos.at_most(moved.pos),
    ensures
        ({
            let end = axis_after(plan_for(err, stop_dist), pos, moved, target).pos;
            &&& err.rank() < 0 ==> target.at_most(end) && end.at_most(pos)
            &&& err.rank() > 0 ==> pos.at_most(end) && end.at_most(target)
        }),
{
}

/// A step that does not reach the target is made in full: the axis does not jump. One
/// that would pass it ends on it, at rest.
pub proof fn step_is_made_in_full(
    err: F32Bits,
    stop_dist: F32Bits,
    pos: F32Bits,
    moved: Axis,
    target: F32Bits,
)
    requires
        !err.nan(),
        !(plan_for(err, stop_dist) is AtTarget),
        !moved.pos.nan(),
        !target.nan(),
    ensures
        ({
            let end = axis_after(plan_for(err, stop_dist), pos, moved, target);
            let passes = if err.is_negative() {
                moved.pos.rank() < target.rank()
            } else {
                moved.pos.rank() > target.rank()
            };
            &&& !passes ==> end.pos == moved.pos && end.rate == moved.rate
            &&& passes ==> end.pos == target && end.rate.rank() == 0
        }),
{
}

/// A rate within its limit is taken as it is; one beyond it is cut off on its own
/// side.
pub proof fn rates_kept_within_limit(dir: F32Bits, changed: F32Bits, max_rate: F32Bits)
    requires
        !changed.nan(),
        is_rate_limit(max_rate),
    ensures
        ({
            let rate = rate_for(AxisPlan::Accelerate { dir }, changed, max_rate);
            &&& changed.spec_abs().at_most(max_rate) ==> rate == changed
            &&& max_rate.below(changed) ==> rate.rank() == max_rate.rank()
            &&& changed.below(max_rate.spec_neg()) ==> rate.rank() == -max_rate.rank()
        }),
{
}

/// Braking takes the slowed rate as long as it does not turn round, and stops where it
/// would.
pub proof fn braking_slows(dir: F32Bits, changed: F32Bits, max_rate: F32Bits)
    requires
        !dir.nan(),
        !changed.nan(),
    ensures
        ({
            let rate = rate_for(AxisPlan::Brake { dir }, changed, max_rate);
            let turns = if dir.is_negative() {
                changed.rank() > 0
            } else {
                changed.rank() < 0
            };
            &&& !turns ==> rate == changed
            &&& turns ==> rate.rank() == 0
        }),
{
}

/// A rate follows its command by `max_delta` at most, in the direction of the command,
/// and reaches it as soon as it can.
pub proof fn ramp_heads_for_command(delta: F32Bits, max_delta: F32Bits)
    requires
        !delta.nan(),
        !max_delta.nan(),
        !max_delta.is_negative(),
    ensures
        ramp_for(delta, max_delta) is Reach <==> delta.spec_abs().at_most(max_delta),
        ramp_for(delta, max_delta) matches Ramp::Step(step) ==> {
            &&& step.rank() == if delta.is_negative() { -max_delta.rank() } else { max_delta.rank() }
            &&& step.spec_abs() == max_delta
        },
{
}

/// Far from both targets each axis gets its own share; near one of them both get the
/// whole rate.
pub proof fn each_axis_gets_its_share(
    pan_err: F32Bits,
    tilt_err: F32Bits,
    pan_share: F32Bits,
    tilt_share: F32Bits,
    max_rate: F32Bits,
)
    requires
        pan_share.at_most(max_rate),
        tilt_share.at_most(max_rate),
    ensures
        ({
            let rates = coordinated(pan_err, tilt_err, pan_share, tilt_share, max_rate);
            let far = |err: F32Bits| (F32Bits { bits: COORDINATED }).below(err.spec_abs());
            &&& far(pan_err) && far(tilt_err) ==> rates.0 == pan_share && rates.1 == tilt_share
            &&& !far(pan_err) || !far(tilt_err) ==> rates.0 == max_rate && rates.1 == max_rate
        }),
{
}

/// Of a share above the limit only the limit is used.
pub proof fn large_shares_cut_off(
    pan_err: F32Bits,
    tilt_err: F32Bits,
    pan_share: F32Bits,
    tilt_share: F32Bits,
    max_rate: F32Bits,
)
    requires
        max_rate.below(pan_share) || max_rate.below(tilt_share),
    ensures
        max_rate.below(pan_share) ==> coordinated(
            pan_err,
            tilt_err,
            pan_share,
            tilt_share,
            max_rate,
        ).0 == max_rate,
        max_rate.below(tilt_share) ==> coordinated(
            pan_err,
            tilt_err,
            pan_share,
            tilt_share,
            max_rate,
        ).1 == max_rate,
{
}

/// An axis at its target rests there.
pub proof fn arrived_axis_rests(
    pos: F32Bits,
    moved: Axis,
    target: F32Bits,
    changed: F32Bits,
    max_rate: F32Bits,
)
    ensures
        rate_for(AxisPlan::AtTarget, changed, max_rate).rank() == 0,
        axis_after(AxisPlan::AtTarget, pos, moved, target).pos == pos,
        axis_after(AxisPlan::AtTarget, pos, moved, target).rate.rank() == 0,
{
}

/// What is taken along a direction keeps its size and has the sign of the direction, or
/// turns round where both are negative.
pub proof fn direction_gives_the_sign(dir: F32Bits, x: F32Bits)
    requires
        !dir.nan(),
    ensures
        directed(dir, x).spec_abs() == x.spec_abs(),
        dir.is_negative() ==> directed(dir, x).rank() == -x.rank(),
        !dir.is_negative() ==> directed(dir, x).rank() == x.rank(),
{
}

/// A rate limit is any number that is not negative.
pub proof fn rate_limits_are_not_negative(max_rate: F32Bits)
    ensures
        is_rate_limit(max_rate) <==> !max_rate.nan() && max_rate.rank() >= 0,
{
}

/// `travel` leads from a place on at a rate: upwards at a positive rate, downwards at a
/// negative one.
pub open spec fn follows_rate(travel: spec_fn(F32Bits, F32Bits) -> F32Bits, pos: F32Bits) -> bool {
    forall|rate: F32Bits|
        #![trigger travel(pos, rate)]
        !rate.nan() ==> {
            &&& rate.rank() > 0 ==> pos.below(travel(pos, rate))
            &&& rate.rank() < 0 ==> travel(pos, rate).below(pos)
        }
}

/// From rest, a step of an axis that is further from its target than it takes to stop
/// ends nearer to the target and not beyond it, from above as from below. `travel` is
/// where a rate leads to in the time of a step.
pub proof fn step_from_rest_is_nearer(
    err: F32Bits,
    stop_dist: F32Bits,
    push: F32Bits,
    max_rate: F32Bits,
    pos: F32Bits,
    target: F32Bits,
    travel: spec_fn(F32Bits, F32Bits) -> F32Bits,
)
    requires
        stop_dist.below(err.spec_abs()),
        !err.spec_abs().below(F32Bits { bits: ARRIVED }),
        !push.nan(),
        push.rank() > 0,
        is_rate_limit(max_rate),
        max_rate.rank() > 0,
        err.rank() < 0 <==> target.below(pos),
        err.rank() > 0 <==> pos.below(target),
        follows_rate(travel, pos),
    ensures
        ({
            let plan = plan_for(err, stop_dist);
            let rate = rate_for(plan, rate_change(plan, push), max_rate);
            let end = axis_after(plan, pos, Axis { pos: travel(pos, rate), rate }, target).pos;
            &&& target.below(pos) ==> target.at_most(end) && end.below(pos)
            &&& pos.below(target) ==> pos.below(end) && end.at_most(target)
        }),
{
    let plan = plan_for(err, stop_dist);
    let rate = rate_for(plan, rate_change(plan, push), max_rate);
    first_step_heads_for_target(err, stop_dist, push, max_rate);
    assert(!rate.nan() && rate.rank() != 0);
}

} // verus!
