use chrono::{Local, TimeZone};
use fennec::battery::{BatteryPowerLimits, WorkingMode};
use fennec::device_schedule::{
    build, index_of, make_slot, schedule_blocks, slot_interval, NaiveTime, SlotWorkingMode,
};
use fennec::ops::RangeInclusive;
use fennec::quantity::{Percentage, Watts};
use fennec::time::{Interval, LocalDateTime};

fn local(day: u32, hour: u32, minute: u32) -> LocalDateTime {
    let timestamp = Local.with_ymd_and_hms(2025, 11, day, hour, minute, 0).unwrap().timestamp();
    LocalDateTime::at(timestamp)
}

fn limits() -> BatteryPowerLimits {
    BatteryPowerLimits {
        charging: Watts(1200),
        discharging: Watts(800),
        max_inverter_output: Watts(1200),
    }
}

#[test]
fn slot_index_of_interval() {
    let interval = Interval::from_std(local(17, 13, 45)..local(17, 14, 0));
    assert_eq!(index_of(interval), 55);
    let interval = Interval::from_std(local(17, 0, 14)..local(17, 0, 30));
    assert_eq!(index_of(interval), 0);
}

#[test]
fn slot_intervals() {
    assert_eq!(
        slot_interval(0),
        (NaiveTime { hour: 0, minute: 0 }, NaiveTime { hour: 0, minute: 15 })
    );
    assert_eq!(
        slot_interval(55),
        (NaiveTime { hour: 13, minute: 45 }, NaiveTime { hour: 14, minute: 0 })
    );
    assert_eq!(
        slot_interval(95),
        (NaiveTime { hour: 23, minute: 45 }, NaiveTime { hour: 23, minute: 59 })
    );
}

#[test]
fn make_slots_per_mode() {
    let allowed = RangeInclusive { min: Percentage(10), max: Percentage(90) };
    let slot = make_slot(4, WorkingMode::Idle, allowed, limits());
    assert!(slot.is_enabled);
    assert_eq!(slot.start_time, NaiveTime { hour: 1, minute: 0 });
    assert_eq!(slot.end_time, NaiveTime { hour: 1, minute: 15 });
    assert_eq!(slot.working_mode, SlotWorkingMode::ForceCharge);
    assert_eq!(slot.target_state_of_charge, Percentage(90));
    assert_eq!(slot.power, 0);
    let slot = make_slot(4, WorkingMode::Compensate, allowed, limits());
    assert_eq!(slot.working_mode, SlotWorkingMode::FeedInPriority);
    assert_eq!(slot.target_state_of_charge, Percentage(10));
    assert_eq!(slot.power, 800);
    let slot = make_slot(4, WorkingMode::Harness, allowed, limits());
    assert_eq!(slot.working_mode, SlotWorkingMode::BackUp);
    assert_eq!(slot.power, 1200);
    assert_eq!(slot.max_state_of_charge, Percentage(90));
    assert_eq!(slot.min_state_of_charge, Percentage(10));
}

#[test]
fn power_is_saturated_into_register() {
    let allowed = RangeInclusive { min: Percentage(10), max: Percentage(90) };
    let big = BatteryPowerLimits { charging: Watts(100_000), ..limits() };
    assert_eq!(make_slot(0, WorkingMode::Charge, allowed, big).power, u16::MAX);
    let negative = BatteryPowerLimits { discharging: Watts(-5), ..limits() };
    assert_eq!(make_slot(0, WorkingMode::Discharge, allowed, negative).power, 0);
}

#[test]
fn full_schedule_is_padded() {
    let plan = vec![
        (Interval::from_std(local(17, 22, 0)..local(18, 1, 0)), WorkingMode::Charge),
        (Interval::from_std(local(18, 1, 0)..local(18, 2, 0)), WorkingMode::SelfUse),
    ];
    let allowed = RangeInclusive { min: Percentage(10), max: Percentage(90) };
    let schedule = build(&plan, allowed, limits());
    assert_eq!(schedule.len(), 96);
    assert_eq!(
        (schedule[0].start_time, schedule[0].end_time),
        (NaiveTime { hour: 22, minute: 0 }, NaiveTime { hour: 23, minute: 59 })
    );
    assert_eq!(
        (schedule[1].start_time, schedule[1].end_time),
        (NaiveTime { hour: 0, minute: 0 }, NaiveTime { hour: 1, minute: 0 })
    );
    assert_eq!(schedule[2].working_mode, SlotWorkingMode::SelfUse);
    assert!(schedule[..3].iter().all(|slot| slot.is_enabled));
    assert!(schedule[3..].iter().all(|slot| !slot.is_enabled));
    assert_eq!(schedule[3].target_state_of_charge, Percentage(100));
    let blocks = schedule_blocks(&schedule);
    assert_eq!(blocks.len(), 8);
    assert!(blocks.iter().all(|block| block.len() == 12));
    assert_eq!(blocks[0][2], schedule[2]);
    assert_eq!(blocks[7][11], schedule[95]);
}
