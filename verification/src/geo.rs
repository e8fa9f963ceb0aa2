//! The decisions of geolocation.
//!
//! Positions and directions are computed elsewhere; here stands when a line of
//! sight is followed and which of its crossings with the ellipsoid counts.

use vstd::prelude::*;

use crate::bits::F64Bits;

verus! {

/// A platform below this altitude (m, binary64) is on the ground: 1.0.
pub const ON_GROUND: u64 = 0x3FF0_0000_0000_0000;

/// A target closer than this (m, binary64) has no direction: 1.0.
pub const SAME_PLACE: u64 = 0x3FF0_0000_0000_0000;

/// A crossing has to be further away than this (m, binary64): 0.001.
pub const NEAREST: u64 = 0x3F50_624D_D2F1_A9FC;

/// A direction shorter than this (binary64) is none: 1e-10.
pub const NO_DIRECTION: u64 = 0x3DDB_7CDF_D9D7_BDBB;

/// A tangent smaller than this (binary64) gives no refraction: 1e-12.
pub const NO_TANGENT: u64 = 0x3D71_9799_812D_EA11;

/// A time shorter than this (s, binary64) gives no velocity: 1e-9.
pub const NO_TIME: u64 = 0x3E11_2E0B_E826_D695;

/// The line of sight is followed from a platform at `alt_m`, where its direction has
/// length `length`.
pub open spec fn followed(alt_m: F64Bits, length: F64Bits) -> bool {
    !alt_m.below(F64Bits { bits: ON_GROUND }) && !length.below(F64Bits { bits: NO_DIRECTION })
}

/// A target at `distance_m` has a direction.
pub open spec fn directed(distance_m: F64Bits) -> bool {
    !distance_m.below(F64Bits { bits: SAME_PLACE })
}

/// A velocity can be told from a move that took `dt` seconds.
pub open spec fn timed(dt: F64Bits) -> bool {
    !dt.below(F64Bits { bits: NO_TIME })
}

/// The refraction for a tangent, where `raw` is the result of the formula.
pub open spec fn refracted(tangent: F64Bits, raw: F64Bits) -> F64Bits {
    if tangent.spec_abs().below(F64Bits { bits: NO_TANGENT }) {
        F64Bits { bits: 0 }
    } else {
        raw.spec_max(F64Bits { bits: 0 })
    }
}

/// Whether the line of sight is followed from a platform at `alt_m`, where its
/// direction has length `length`. It is not from the ground.
pub fn follows_line_of_sight(alt_m: F64Bits, length: F64Bits) -> (r: bool)
    ensures
        r == followed(alt_m, length),
        r == (!alt_m.below(F64Bits { bits: ON_GROUND }) && !length.below(
            F64Bits { bits: NO_DIRECTION },
        )),
{
    !alt_m.lt(F64Bits::from_bits(ON_GROUND)) && !length.lt(F64Bits::from_bits(NO_DIRECTION))
}

/// The distance at which a ray meets the ellipsoid, of its two crossings: none if
/// it passes by, otherwise the first that lies ahead.
pub open spec fn crossing(discriminant: F64Bits, first: F64Bits, second: F64Bits) -> Option<
    F64Bits,
> {
    let near = F64Bits { bits: NEAREST };
    if discriminant.below(F64Bits { bits: 0 }) {
        None
    } else if near.below(first) {
        Some(first)
    } else if near.below(second) {
        Some(second)
    } else {
        None
    }
}

/// The distance at which a ray meets the ellipsoid. `first` and `second` are the
/// solutions of the quadratic equation with the given discriminant.
pub fn nearest_crossing(discriminant: F64Bits, first: F64Bits, second: F64Bits) -> (r: Option<
    F64Bits,
>)
    ensures
        r == crossing(discriminant, first, second),
{
    let near = F64Bits::from_bits(NEAREST);
    if discriminant.lt(F64Bits::from_bits(0)) {
        None
    } else if near.lt(first) {
        Some(first)
    } else if near.lt(second) {
        Some(second)
    } else {
        None
    }
}

/// Whether a target at `distance_m` has a direction.
pub fn has_direction(distance_m: F64Bits) -> (r: bool)
    ensures
        r == directed(distance_m),
        r == !distance_m.below(F64Bits { bits: SAME_PLACE }),
{
    !distance_m.lt(F64Bits::from_bits(SAME_PLACE))
}

/// Whether a velocity can be told from a move that took `dt` seconds.
pub fn has_velocity(dt: F64Bits) -> (r: bool)
    ensures
        r == timed(dt),
        r == !dt.below(F64Bits { bits: NO_TIME }),
{
    !dt.lt(F64Bits::from_bits(NO_TIME))
}

/// The refraction for a tangent, where `raw` is the result of the formula. It never
/// bends the line of sight upwards.
pub fn refraction(tangent: F64Bits, raw: F64Bits) -> (r: F64Bits)
    ensures
        r == refracted(tangent, raw),
        r == (if tangent.spec_abs().below(F64Bits { bits: NO_TANGENT }) {
            F64Bits { bits: 0 }
        } else {
            raw.spec_max(F64Bits { bits: 0 })
        }),
{
    if tangent.abs().lt(F64Bits::from_bits(NO_TANGENT)) {
        F64Bits::from_bits(0)
    } else {
        raw.max(F64Bits::from_bits(0))
    }
}

// ── Laws ───────────────────────────────────────────────────────────────

/// Of two crossings ahead the nearer one counts, and one behind never does.
pub proof fn crossing_is_nearest_ahead(
    discriminant: F64Bits,
    first: F64Bits,
    second: F64Bits,
)
    requires
        first.at_most(second),
    ensures
        crossing(discriminant, first, second) matches Some(t) ==> {
            &&& (F64Bits { bits: NEAREST }).below(t)
            &&& (F64Bits { bits: NEAREST }).below(first) ==> t == first
            &&& t.at_most(second)
        },
        crossing(discriminant, first, second) is None ==> discriminant.below(F64Bits { bits: 0 })
            || second.at_most(F64Bits { bits: NEAREST }),
{
}

/// A line of sight is followed from the air and not from the ground: where it is
/// followed it is from any greater altitude too, and never without a direction.
pub proof fn followed_from_the_air(alt_m: F64Bits, higher: F64Bits, length: F64Bits)
    requires
        alt_m.at_most(higher),
        !length.nan(),
    ensures
        followed(alt_m, length) ==> followed(higher, length),
        followed(alt_m, length) <==> (F64Bits { bits: ON_GROUND }).at_most(alt_m) && (F64Bits {
            bits: NO_DIRECTION,
        }).at_most(length),
        followed(alt_m, length) <==> alt_m.rank() >= 0x3FF0_0000_0000_0000 && length.rank()
            >= 0x3DDB_7CDF_D9D7_BDBB,
        alt_m.rank() <= 0 ==> !followed(alt_m, length),
        length.rank() <= 0 ==> !followed(alt_m, length),
{
}

/// A target has a direction from a distance on, and a velocity can be told from a
/// time on.
pub proof fn far_enough_and_long_enough(near: F64Bits, far: F64Bits)
    requires
        near.at_most(far),
    ensures
        directed(near) ==> directed(far),
        directed(near) <==> (F64Bits { bits: SAME_PLACE }).at_most(near),
        directed(near) <==> near.rank() >= 0x3FF0_0000_0000_0000,
        near.rank() <= 0 ==> !directed(near),
        timed(near) ==> timed(far),
        timed(near) <==> (F64Bits { bits: NO_TIME }).at_most(near),
        timed(near) <==> near.rank() >= 0x3E11_2E0B_E826_D695,
        near.rank() <= 0 ==> !timed(near),
{
}

/// Refraction is never negative. It is what the formula gives wherever that is not
/// negative and the tangent is not too small, on either side of the horizon.
pub proof fn refraction_never_negative(tangent: F64Bits, mirrored: F64Bits, raw: F64Bits)
    requires
        !tangent.nan(),
        !raw.nan(),
    ensures
        refracted(tangent, raw).rank() >= 0,
        tangent.spec_abs().below(F64Bits { bits: NO_TANGENT }) ==> refracted(tangent, raw).rank()
            == 0,
        !tangent.spec_abs().below(F64Bits { bits: NO_TANGENT }) && raw.rank() >= 0 ==> refracted(
            tangent,
            raw,
        ).rank() == raw.rank(),
        mirrored.spec_abs() == tangent.spec_abs() ==> refracted(mirrored, raw) == refracted(
            tangent,
            raw,
        ),
{
}

/// A ray that passes by meets nothing, whatever else the equation gives.
pub proof fn passing_ray_meets_nothing(discriminant: F64Bits, first: F64Bits, second: F64Bits)
    requires
        discriminant.rank() < 0,
        !discriminant.nan(),
    ensures
        crossing(discriminant, first, second) is None,
{
}

/// A ray that does not pass by and has a crossing ahead meets the earth.
pub proof fn crossing_ahead_is_met(discriminant: F64Bits, first: F64Bits, second: F64Bits)
    requires
        discriminant.rank() >= 0,
    ensures
        (F64Bits { bits: NEAREST }).below(first) ==> crossing(discriminant, first, second) == Some(
            first,
        ),
        !(F64Bits { bits: NEAREST }).below(first) && (F64Bits { bits: NEAREST }).below(second)
            ==> crossing(discriminant, first, second) == Some(second),
{
}

} // verus!
