use fennec::battery::{
    actual_capacity, energy_level, residual_energy, BatteryPowerLimits, Metrics, State, WorkingMode,
};
use fennec::energy::Flow;
use fennec::ops::RangeInclusive;
use fennec::quantity::{DecawattHours, MilliwattHours, Percentage, Watts};

#[test]
fn residual_energy_in_milliwatt_hours() {
    assert_eq!(
        residual_energy(DecawattHours(1000), Percentage(95), Percentage(50)),
        MilliwattHours(4_750_000)
    );
    let state = State {
        charge: Percentage(100),
        health: Percentage(100),
        design_capacity: DecawattHours(220),
        active_power: Watts(0),
        eps_active_power: Watts(0),
    };
    // 2.2 kWh at full charge and health:
    assert_eq!(state.residual_energy(), MilliwattHours(2_200_000));
    let metrics = Metrics {
        state_of_charge: Percentage(20),
        state_of_health: Percentage(90),
        design_capacity: DecawattHours(220),
        total_grid_flow: Flow { import: DecawattHours(1), export: DecawattHours(2) },
        allowed_soc: RangeInclusive { min: Percentage(10), max: Percentage(100) },
        active_power: Watts(-300),
        eps_active_power: Watts(0),
    };
    assert_eq!(metrics.residual_energy(), MilliwattHours(396_000));
    // 2.2 kWh at 90% health is 1.98 kWh:
    assert_eq!(metrics.actual_capacity(), MilliwattHours(1_980_000));
    assert_eq!(state.actual_capacity(), MilliwattHours(2_200_000));
    // 10% and 100% of 1980 Wh:
    assert_eq!(metrics.allowed_residual_energy(), RangeInclusive { min: 198, max: 1980 });
}

#[test]
fn energy_levels_round_down_to_watt_hours() {
    assert_eq!(actual_capacity(DecawattHours(270), Percentage(98)), MilliwattHours(2_646_000));
    // 15% of 2646 Wh is 396.9 Wh:
    assert_eq!(energy_level(DecawattHours(270), Percentage(98), Percentage(15)), 396);
    assert_eq!(energy_level(DecawattHours(270), Percentage(98), Percentage(0)), 0);
}

#[test]
fn effective_flow_limits() {
    let limits = BatteryPowerLimits {
        charging: Watts(1200),
        discharging: Watts(800),
        max_inverter_output: Watts(1200),
    };
    assert_eq!(limits.max_effective_flow(Watts(100)), Flow { import: Watts(1200), export: Watts(900) });
    assert_eq!(limits.max_effective_flow(Watts(600)), Flow { import: Watts(1200), export: Watts(1200) });
    // A sum beyond the `i64` range is still capped by the inverter limit:
    assert_eq!(
        limits.max_effective_flow(Watts(i64::MAX)),
        Flow { import: Watts(1200), export: Watts(1200) }
    );
}

#[test]
fn working_mode_titles_and_order() {
    assert_eq!(WorkingMode::SelfUse.title(), "Self-use");
    assert_eq!(WorkingMode::Compensate.title(), "Compensate");
    assert!(WorkingMode::Idle < WorkingMode::Harness);
    assert!(WorkingMode::Charge < WorkingMode::Discharge);
}
