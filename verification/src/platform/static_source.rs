//! A platform that stays where the settings put it.

use vstd::prelude::*;

use crate::config::Config;
use crate::platform::PlatformState;

verus! {

/// A source with one state.
#[derive(Debug, Clone, Copy, PartialEq, Eq, Structural)]
pub struct StaticSource {
    /// The state that it gives.
    pub state: PlatformState,
}

impl StaticSource {
    /// At rest at the position and attitude of the settings.
    pub fn from_config(cfg: &Config) -> (r: Self)
        ensures
            r.state == PlatformState::at_rest(*cfg),
    {
        StaticSource { state: PlatformState::from_config(cfg) }
    }
}

} // verus!
