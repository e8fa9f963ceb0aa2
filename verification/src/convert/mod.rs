//! Conversion between Orion and CIGI.

use vstd::prelude::*;

pub mod to_cigi;
pub mod to_orion;

verus! {

/// The slew rate (rad/s) that stands for full scale in either direction, as a
/// binary32 pattern: 60 degrees/s.
pub const MAX_SLEW_RATE: u32 = 0x3F86_0A92;

/// The angle (rad) that stands for full scale in either direction, as a binary32
/// pattern: half a turn.
pub const MAX_ANGLE: u32 = 0x4049_0FDB;

} // verus!
