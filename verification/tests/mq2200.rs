use fennec::battery::State;
use fennec::mq2200::{
    decode_state, DeviceState, RegisterError, StateReads, ACTIVE_POWER_REGISTER,
    STATE_OF_HEALTH_REGISTER,
};
use fennec::ops::RangeInclusive;
use fennec::quantity::{DecawattHours, Percentage, Watts};

fn reads() -> StateReads {
    StateReads {
        design_capacity: vec![270],
        state_of_health: vec![98],
        min_system_soc: vec![10],
        min_soc_on_grid: vec![15],
        max_soc: vec![100],
        state_of_charge: vec![55],
        active_power: vec![0xFFFF, 0xFC18],
        eps_active_power: vec![0, 500],
    }
}

#[test]
fn decodes_the_battery_state() {
    let expected = DeviceState {
        state: State {
            charge: Percentage(55),
            health: Percentage(98),
            design_capacity: DecawattHours(270),
            active_power: Watts(-1000),
            eps_active_power: Watts(500),
        },
        min_system_charge: Percentage(10),
        charge_range: RangeInclusive { min: Percentage(15), max: Percentage(100) },
    };
    assert_eq!(decode_state(&reads()), Ok(expected));
    let residual = expected.state.residual_energy();
    assert_eq!(residual.0, 270 * 98 * 55);
}

#[test]
fn reports_the_first_register_without_a_value() {
    let mut missing_health = reads();
    missing_health.state_of_health = vec![];
    missing_health.active_power = vec![1];
    assert_eq!(
        decode_state(&missing_health),
        Err(RegisterError::NoData { address: STATE_OF_HEALTH_REGISTER })
    );
    let mut short_power = reads();
    short_power.active_power = vec![1];
    assert_eq!(
        decode_state(&short_power),
        Err(RegisterError::WordCount { address: ACTIVE_POWER_REGISTER, actual: 1 })
    );
}
