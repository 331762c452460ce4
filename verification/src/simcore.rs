//! Shared simulation vocabulary: the bridge mode of a motor's drive stage,
//! the per-domain timestep rate dividers, and the reset capability that every
//! stepped model offers.

use vstd::prelude::*;

verus! {

/// Electrical state of a motor's drive bridge.
///
/// `Open` leaves the phases floating, `Shorted` ties them together for
/// passive braking, and `Closed` drives them from the commanded duties.
#[derive(Debug, Clone, Copy)]
pub enum BridgeMode {
    Open,
    Shorted,
    Closed,
}

/// Per-domain rate dividers for the shared timestep protocol.
///
/// Each field says how many base ticks make up one step of that domain.
/// Electrical dynamics need a much smaller sub-step than the mechanical and
/// battery models to stay numerically stable, so a caller runs each domain
/// only every `scale`-th tick of the finest clock.
pub struct TimestepScales {
    pub physics: u32,
    pub control: u32,
    pub electrical: u32,
    pub sensor: u32,
}

/// Capability shared by every stepped model: return to the rest
/// configuration without discarding the immutable constants.
pub trait Model {
    fn reset(&mut self);
}

} // verus!
