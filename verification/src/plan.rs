//! Working modes that a battery plan assigns to time intervals.

use vstd::prelude::*;

verus! {

/// Planned battery working mode for an interval of a schedule.
#[derive(Clone, Copy, PartialEq, Eq, Structural, Debug, Hash)]
pub enum PlannedMode {
    /// Keep the battery idle.
    Idle,
    /// Only charge from excess power.
    Harvest,
    /// Forcibly charge.
    Charge,
    /// Charge on excess, discharge on deficit.
    SelfUse,
    /// Forcibly discharge.
    Discharge,
}

} // verus!
