//! Battery working modes, power limits and state bookkeeping.

use vstd::prelude::*;

use crate::energy::Flow;
use crate::ops::RangeInclusive;
use crate::quantity::{DecawattHours, MilliwattHours, Percentage, Watts};

verus! {

/// Battery working mode, ordered by priority: least battery action first.
///
/// The order matters when the corresponding solution losses are similar.
#[derive(Clone, Copy, PartialEq, Eq, Structural, Debug, Hash, PartialOrd, Ord)]
pub enum WorkingMode {
    /// Do not do anything.
    Idle,
    /// Only excess solar power charging without discharging.
    Harness,
    /// Compensate on insufficient solar power, but never charge.
    Compensate,
    /// Charge on excess solar power, compensate on insufficient solar power.
    SelfUse,
    /// Forced charging from any source.
    Charge,
    /// Forced discharging, no matter the actual consumption.
    Discharge,
}

impl WorkingMode {
    /// Human-readable title of the mode.
    pub fn title(self) -> (title: &'static str)
        ensures
            title@ == match self {
                WorkingMode::SelfUse => "Self-use"@,
                WorkingMode::Idle => "Idle"@,
                WorkingMode::Harness => "Harness"@,
                WorkingMode::Charge => "Charge"@,
                WorkingMode::Discharge => "Discharge"@,
                WorkingMode::Compensate => "Compensate"@,
            },
    {
        match self {
            WorkingMode::SelfUse => "Self-use",
            WorkingMode::Idle => "Idle",
            WorkingMode::Harness => "Harness",
            WorkingMode::Charge => "Charge",
            WorkingMode::Discharge => "Discharge",
            WorkingMode::Compensate => "Compensate",
        }
    }
}

/// Battery power limits.
#[derive(Clone, Copy, PartialEq, Eq, Structural, Debug)]
pub struct BatteryPowerLimits {
    /// Charging power.
    pub charging: Watts,
    /// Discharging power.
    pub discharging: Watts,
    /// Inverter output power limit: it limits the summed grid and EPS output when discharging.
    pub max_inverter_output: Watts,
}

/// The smaller of two integers.
pub open spec fn min_int(a: int, b: int) -> int {
    if a <= b {
        a
    } else {
        b
    }
}

impl BatteryPowerLimits {
    /// Calculate the effective power limits given the average EPS power.
    ///
    /// EPS power does not compete with the grid output, hence it is added on top of the
    /// discharging power; the total is limited by the maximum inverter output.
    pub fn max_effective_flow(self, average_eps_power: Watts) -> (flow: Flow<Watts>)
        requires
            i64::MIN <= self.discharging.0 + average_eps_power.0,
        ensures
            flow.import == self.charging,
            flow.export.0 == min_int(
                self.discharging.0 + average_eps_power.0,
                self.max_inverter_output.0 as int,
            ),
    {
        let total_discharging = self.discharging.0 as i128 + average_eps_power.0 as i128;
        let export = if total_discharging <= self.max_inverter_output.0 as i128 {
            total_discharging as i64
        } else {
            self.max_inverter_output.0
        };
        Flow { import: self.charging, export: Watts(export) }
    }
}

/// The effective discharging limit never exceeds the inverter output limit, and the charging
/// limit passes through unchanged.
pub proof fn lemma_effective_flow_within_inverter_limit(
    limits: BatteryPowerLimits,
    average_eps_power: Watts,
)
    ensures
        min_int(limits.discharging.0 + average_eps_power.0, limits.max_inverter_output.0 as int)
            <= limits.max_inverter_output.0,
        min_int(limits.discharging.0 + average_eps_power.0, limits.max_inverter_output.0 as int)
            <= limits.discharging.0 + average_eps_power.0,
{
}

/// More EPS power never lowers the effective discharging limit, and the charging limit does not
/// depend on it.
pub proof fn lemma_effective_flow_monotonic(limits: BatteryPowerLimits, low: Watts, high: Watts)
    requires
        low.0 <= high.0,
    ensures
        min_int(limits.discharging.0 + low.0, limits.max_inverter_output.0 as int) <= min_int(
            limits.discharging.0 + high.0,
            limits.max_inverter_output.0 as int,
        ),
{
}

/// Residual energy of a battery: design capacity corrected on the state of health and charge.
///
/// `design × health% × charge%` decawatt-hours is exactly that many milliwatt-hours.
pub open spec fn spec_residual_energy(
    design_capacity: DecawattHours,
    health: Percentage,
    charge: Percentage,
) -> int {
    design_capacity.0 * health.0 * charge.0
}

/// Residual energy corrected on the state of health, in milliwatt-hours.
pub fn residual_energy(
    design_capacity: DecawattHours,
    health: Percentage,
    charge: Percentage,
) -> (energy: MilliwattHours)
    ensures
        energy.0 == spec_residual_energy(design_capacity, health, charge),
{
    let design = design_capacity.0 as u64;
    let health = health.0 as u64;
    let charge = charge.0 as u64;
    assert(design * health <= 0xffff_ffff * 0xffff) by (nonlinear_arith)
        requires design <= 0xffff_ffff, health <= 0xffff;
    assert(design * health * charge <= 0xffff_ffff * 0xffff * 0xffff) by (nonlinear_arith)
        requires design * health <= 0xffff_ffff * 0xffff, charge <= 0xffff, design * health >= 0;
    MilliwattHours(design * health * charge)
}

/// With the state of health and of charge at most 100%, the residual energy does not exceed the
/// design capacity (`design × 10⁴` milliwatt-hours).
pub proof fn lemma_residual_energy_within_design_capacity(
    design_capacity: DecawattHours,
    health: Percentage,
    charge: Percentage,
)
    requires
        health.0 <= 100,
        charge.0 <= 100,
    ensures
        spec_residual_energy(design_capacity, health, charge) <= design_capacity.0 * 10_000,
{
    let d = design_capacity.0 as int;
    let h = health.0 as int;
    let c = charge.0 as int;
    assert(d * h * c <= d * 10_000) by (nonlinear_arith)
        requires 0 <= d, 0 <= h <= 100, 0 <= c <= 100;
}

/// Battery capacity corrected on the state of health, in milliwatt-hours.
///
/// `design × health%` decawatt-hours is `design × health × 100` milliwatt-hours.
pub open spec fn spec_actual_capacity(design_capacity: DecawattHours, health: Percentage) -> int {
    design_capacity.0 * health.0 * 100
}

/// Battery capacity corrected on the state of health, in milliwatt-hours.
pub fn actual_capacity(
    design_capacity: DecawattHours,
    health: Percentage,
) -> (capacity: MilliwattHours)
    ensures
        capacity.0 == spec_actual_capacity(design_capacity, health),
{
    let design = design_capacity.0 as u64;
    let health = health.0 as u64;
    assert(design * health <= 0xffff_ffff * 0xffff) by (nonlinear_arith)
        requires design <= 0xffff_ffff, health <= 0xffff;
    MilliwattHours(design * health * 100)
}

/// Energy level of the actual capacity at the state of charge, in whole watt-hours rounded down.
///
/// `design × health% × charge%` decawatt-hours is `design × health × charge / 1000` watt-hours.
pub open spec fn spec_energy_level(
    design_capacity: DecawattHours,
    health: Percentage,
    charge: Percentage,
) -> int {
    spec_residual_energy(design_capacity, health, charge) / 1000
}

/// Energy level of the actual capacity at the state of charge, in whole watt-hours rounded down.
pub fn energy_level(
    design_capacity: DecawattHours,
    health: Percentage,
    charge: Percentage,
) -> (level: u64)
    ensures
        level == spec_energy_level(design_capacity, health, charge),
{
    let energy = residual_energy(design_capacity, health, charge);
    energy.0 / 1000
}

/// Battery state as read from the device.
#[derive(Clone, Copy, PartialEq, Eq, Structural, Debug)]
pub struct State {
    /// State of charge.
    pub charge: Percentage,
    /// State of health.
    pub health: Percentage,
    /// Design capacity: constant for the product lifetime.
    pub design_capacity: DecawattHours,
    /// External active power: positive means discharging, negative means charging.
    pub active_power: Watts,
    /// Active power on the EPS output.
    pub eps_active_power: Watts,
}

impl State {
    /// Battery capacity corrected on the state of health.
    pub fn actual_capacity(&self) -> (capacity: MilliwattHours)
        ensures
            capacity.0 == spec_actual_capacity(self.design_capacity, self.health),
    {
        actual_capacity(self.design_capacity, self.health)
    }

    /// Residual energy corrected on the state of health.
    pub fn residual_energy(&self) -> (energy: MilliwattHours)
        ensures
            energy.0 == spec_residual_energy(self.design_capacity, self.health, self.charge),
    {
        residual_energy(self.design_capacity, self.health, self.charge)
    }
}

/// Battery metrics as read from the device.
#[derive(Clone, Copy, PartialEq, Eq, Structural, Debug)]
pub struct Metrics {
    /// State of charge.
    pub state_of_charge: Percentage,
    /// State of health.
    pub state_of_health: Percentage,
    pub design_capacity: DecawattHours,
    /// Total energy imported from and exported to the grid, in decawatt-hours.
    pub total_grid_flow: Flow<DecawattHours>,
    /// Allowed state-of-charge range.
    pub allowed_soc: RangeInclusive<Percentage>,
    /// External active power: positive means discharging, negative means charging.
    pub active_power: Watts,
    /// Active power on the EPS output.
    pub eps_active_power: Watts,
}

impl Metrics {
    /// Battery capacity corrected on the state of health.
    pub fn actual_capacity(&self) -> (capacity: MilliwattHours)
        ensures
            capacity.0 == spec_actual_capacity(self.design_capacity, self.state_of_health),
    {
        actual_capacity(self.design_capacity, self.state_of_health)
    }

    /// Energy levels, in whole watt-hours, of the allowed state-of-charge range.
    pub fn allowed_residual_energy(&self) -> (levels: RangeInclusive<u64>)
        ensures
            levels.min == spec_energy_level(
                self.design_capacity,
                self.state_of_health,
                self.allowed_soc.min,
            ),
            levels.max == spec_energy_level(
                self.design_capacity,
                self.state_of_health,
                self.allowed_soc.max,
            ),
    {
        RangeInclusive {
            min: energy_level(self.design_capacity, self.state_of_health, self.allowed_soc.min),
            max: energy_level(self.design_capacity, self.state_of_health, self.allowed_soc.max),
        }
    }

    /// Residual energy corrected on the state of health.
    pub fn residual_energy(&self) -> (energy: MilliwattHours)
        ensures
            energy.0 == spec_residual_energy(
                self.design_capacity,
                self.state_of_health,
                self.state_of_charge,
            ),
    {
        residual_energy(self.design_capacity, self.state_of_health, self.state_of_charge)
    }
}

/// Energy levels follow the state of charge: a higher charge never gives a lower level, and at
/// most 100% the level does not exceed the actual capacity.
pub proof fn lemma_energy_level_monotonic(
    design_capacity: DecawattHours,
    health: Percentage,
    low: Percentage,
    high: Percentage,
)
    requires
        low.0 <= high.0,
    ensures
        spec_energy_level(design_capacity, health, low) <= spec_energy_level(
            design_capacity,
            health,
            high,
        ),
        high.0 <= 100 ==> spec_energy_level(design_capacity, health, high) * 1000
            <= spec_actual_capacity(design_capacity, health),
{
    let d = design_capacity.0 as int;
    let h = health.0 as int;
    let l = low.0 as int;
    let c = high.0 as int;
    assert(d * h * l <= d * h * c) by (nonlinear_arith)
        requires 0 <= d, 0 <= h, 0 <= l <= c;
    assert((d * h * l) / 1000 <= (d * h * c) / 1000) by (nonlinear_arith)
        requires 0 <= d * h * l <= d * h * c;
    if c <= 100 {
        assert(d * h * c <= d * h * 100) by (nonlinear_arith)
            requires 0 <= d, 0 <= h, 0 <= c <= 100;
        assert((d * h * c) / 1000 * 1000 <= d * h * c) by (nonlinear_arith)
            requires 0 <= d * h * c;
    }
}

} // verus!
