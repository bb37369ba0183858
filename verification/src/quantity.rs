//! Physical quantities as whole numbers of their units.

use vstd::prelude::*;

verus! {

/// Power in whole watts.
#[derive(Clone, Copy, PartialEq, Eq, Structural, Debug)]
pub struct Watts(pub i64);

/// Percentage, `100` being the whole.
#[derive(Clone, Copy, PartialEq, Eq, Structural, Debug)]
pub struct Percentage(pub u16);

/// Energy in decawatt-hours: 1 daWh is 10 Wh.
#[derive(Clone, Copy, PartialEq, Eq, Structural, Debug)]
pub struct DecawattHours(pub u32);

/// Energy in milliwatt-hours.
#[derive(Clone, Copy, PartialEq, Eq, Structural, Debug)]
pub struct MilliwattHours(pub u64);

} // verus!
