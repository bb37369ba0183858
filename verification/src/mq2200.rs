//! Holding registers of the Fox ESS MQ2200 battery, and the battery state that they hold.

use vstd::prelude::*;

use crate::battery::State;
use crate::modbus::{first_word, i32_from_words, spec_i32_of_u32, spec_u32_of_words};
use crate::ops::RangeInclusive;
use crate::quantity::{DecawattHours, Percentage, Watts};

verus! {

/// Design capacity in decawatt-hours: one word.
pub const DESIGN_CAPACITY_REGISTER: u16 = 37635u16;

/// State of health in percent: one word.
pub const STATE_OF_HEALTH_REGISTER: u16 = 37624u16;

/// Minimum system state of charge in percent: one word.
pub const MIN_SYSTEM_SOC_REGISTER: u16 = 46609u16;

/// Maximum state of charge in percent: one word.
pub const MAX_SOC_REGISTER: u16 = 46610u16;

/// Minimum state of charge on grid in percent: one word.
pub const MIN_SOC_ON_GRID_REGISTER: u16 = 46611u16;

/// State of charge in percent: one word.
pub const STATE_OF_CHARGE_REGISTER: u16 = 39424u16;

/// Total external active power in watts, positive when discharging: two words.
pub const ACTIVE_POWER_REGISTER: u16 = 39134u16;

/// EPS output active power in watts: two words.
pub const EPS_ACTIVE_POWER_REGISTER: u16 = 39216u16;

/// The words that the reads of the state registers returned, one read per register.
pub struct StateReads {
    pub design_capacity: Vec<u16>,
    pub state_of_health: Vec<u16>,
    pub min_system_soc: Vec<u16>,
    pub min_soc_on_grid: Vec<u16>,
    pub max_soc: Vec<u16>,
    pub state_of_charge: Vec<u16>,
    pub active_power: Vec<u16>,
    pub eps_active_power: Vec<u16>,
}

/// A register read that does not hold a value.
#[derive(Clone, Copy, PartialEq, Eq, Structural, Debug)]
pub enum RegisterError {
    /// The read of a one-word register returned no words.
    NoData { address: u16 },
    /// The read of a two-word register returned another number of words.
    WordCount { address: u16, actual: usize },
}

/// Battery state together with its state-of-charge settings.
#[derive(Clone, Copy, PartialEq, Eq, Structural, Debug)]
pub struct DeviceState {
    pub state: State,
    /// Minimum system state of charge.
    pub min_system_charge: Percentage,
    /// Allowed state of charge: from the minimum on grid to the maximum.
    pub charge_range: RangeInclusive<Percentage>,
}

/// Signed value of two big-endian words.
pub open spec fn spec_i32_of_words(words: Seq<u16>) -> i32 {
    spec_i32_of_u32(spec_u32_of_words(words[0], words[1])) as i32
}

/// The device state that the reads hold, or the first read, in the order in which the registers
/// are read, that holds no value.
///
/// A one-word register takes the first word of its read; a two-word register needs exactly two.
pub open spec fn spec_device_state(reads: StateReads) -> Result<DeviceState, RegisterError> {
    if reads.design_capacity@.len() == 0 {
        Err(RegisterError::NoData { address: DESIGN_CAPACITY_REGISTER })
    } else if reads.state_of_health@.len() == 0 {
        Err(RegisterError::NoData { address: STATE_OF_HEALTH_REGISTER })
    } else if reads.min_system_soc@.len() == 0 {
        Err(RegisterError::NoData { address: MIN_SYSTEM_SOC_REGISTER })
    } else if reads.min_soc_on_grid@.len() == 0 {
        Err(RegisterError::NoData { address: MIN_SOC_ON_GRID_REGISTER })
    } else if reads.max_soc@.len() == 0 {
        Err(RegisterError::NoData { address: MAX_SOC_REGISTER })
    } else if reads.state_of_charge@.len() == 0 {
        Err(RegisterError::NoData { address: STATE_OF_CHARGE_REGISTER })
    } else if reads.active_power@.len() != 2 {
        Err(
            RegisterError::WordCount {
                address: ACTIVE_POWER_REGISTER,
                actual: reads.active_power@.len() as usize,
            },
        )
    } else if reads.eps_active_power@.len() != 2 {
        Err(
            RegisterError::WordCount {
                address: EPS_ACTIVE_POWER_REGISTER,
                actual: reads.eps_active_power@.len() as usize,
            },
        )
    } else {
        Ok(
            DeviceState {
                state: State {
                    charge: Percentage(reads.state_of_charge@[0]),
                    health: Percentage(reads.state_of_health@[0]),
                    design_capacity: DecawattHours(reads.design_capacity@[0] as u32),
                    active_power: Watts(spec_i32_of_words(reads.active_power@) as i64),
                    eps_active_power: Watts(spec_i32_of_words(reads.eps_active_power@) as i64),
                },
                min_system_charge: Percentage(reads.min_system_soc@[0]),
                charge_range: RangeInclusive {
                    min: Percentage(reads.min_soc_on_grid@[0]),
                    max: Percentage(reads.max_soc@[0]),
                },
            },
        )
    }
}

/// The first word of a one-word register's read.
fn one_word(words: &Vec<u16>, address: u16) -> (result: Result<u16, RegisterError>)
    ensures
        words@.len() == 0 ==> result == Err::<u16, RegisterError>(
            RegisterError::NoData { address },
        ),
        words@.len() > 0 ==> result == Ok::<u16, RegisterError>(words@[0]),
{
    match first_word(words.as_slice()) {
        Some(word) => Ok(word),
        None => Err(RegisterError::NoData { address }),
    }
}

/// The signed value of a two-word register's read.
fn two_words(words: &Vec<u16>, address: u16) -> (result: Result<i32, RegisterError>)
    ensures
        words@.len() != 2 ==> result == Err::<i32, RegisterError>(
            RegisterError::WordCount { address, actual: words@.len() as usize },
        ),
        words@.len() == 2 ==> result == Ok::<i32, RegisterError>(spec_i32_of_words(words@)),
{
    match i32_from_words(words.as_slice()) {
        Ok(value) => Ok(value),
        Err(mismatch) => Err(RegisterError::WordCount { address, actual: mismatch.actual }),
    }
}

/// Decode the battery state from the reads of its registers.
pub fn decode_state(reads: &StateReads) -> (result: Result<DeviceState, RegisterError>)
    ensures
        result == spec_device_state(*reads),
{
    let design_capacity = one_word(&reads.design_capacity, DESIGN_CAPACITY_REGISTER)?;
    let health = one_word(&reads.state_of_health, STATE_OF_HEALTH_REGISTER)?;
    let min_system_charge = one_word(&reads.min_system_soc, MIN_SYSTEM_SOC_REGISTER)?;
    let min_soc_on_grid = one_word(&reads.min_soc_on_grid, MIN_SOC_ON_GRID_REGISTER)?;
    let max_soc = one_word(&reads.max_soc, MAX_SOC_REGISTER)?;
    let charge = one_word(&reads.state_of_charge, STATE_OF_CHARGE_REGISTER)?;
    let active_power = two_words(&reads.active_power, ACTIVE_POWER_REGISTER)?;
    let eps_active_power = two_words(&reads.eps_active_power, EPS_ACTIVE_POWER_REGISTER)?;
    Ok(
        DeviceState {
            state: State {
                charge: Percentage(charge),
                health: Percentage(health),
                design_capacity: DecawattHours(design_capacity as u32),
                active_power: Watts(active_power as i64),
                eps_active_power: Watts(eps_active_power as i64),
            },
            min_system_charge: Percentage(min_system_charge),
            charge_range: RangeInclusive { min: Percentage(min_soc_on_grid), max: Percentage(max_soc) },
        },
    )
}

} // verus!
