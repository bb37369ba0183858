use chrono::{Local, TimeZone};
use fennec::battery::BatteryPowerLimits;
use fennec::fox_slots::{into_time_slots, EndTime, StartTime};
use fennec::foxcloud::Groups;
use fennec::foxess::{TimeSlotSequence, WorkingMode};
use fennec::ops::RangeInclusive;
use fennec::plan::PlannedMode;
use fennec::quantity::{Percentage, Watts};
use fennec::time::{Interval, LocalDateTime};

fn local(year: i32, month: u32, day: u32, hour: u32, minute: u32) -> LocalDateTime {
    let timestamp = Local.with_ymd_and_hms(year, month, day, hour, minute, 0).unwrap().timestamp();
    LocalDateTime::at(timestamp)
}

fn limits() -> BatteryPowerLimits {
    BatteryPowerLimits {
        charging: Watts(1200),
        discharging: Watts(800),
        max_inverter_output: Watts(1200),
    }
}

#[test]
fn test_try_into_time_slots_ok() {
    let start_time = local(2025, 11, 17, 22, 15);
    let end_time = local(2025, 11, 17, 23, 15);
    let slots = into_time_slots(Interval::from_std(start_time..end_time));
    assert_eq!(slots, vec![(StartTime { hour: 22, minute: 15 }, EndTime { hour: 23, minute: 15 })],);
}

#[test]
fn test_try_into_time_slots_midnight_ok() {
    let start_time = local(2025, 11, 17, 22, 15);
    let end_time = local(2025, 11, 18, 0, 0);
    let slots = into_time_slots(Interval::from_std(start_time..end_time));
    assert_eq!(slots, vec![(StartTime { hour: 22, minute: 15 }, EndTime { hour: 23, minute: 59 })],);
}

#[test]
fn test_try_into_time_slots_cross_day_ok() {
    let start_time = local(2025, 11, 17, 22, 15);
    let end_time = local(2025, 11, 18, 1, 15);
    let slots = into_time_slots(Interval::from_std(start_time..end_time));
    assert_eq!(
        slots,
        vec![
            (StartTime { hour: 22, minute: 15 }, EndTime { hour: 23, minute: 59 }),
            (StartTime { hour: 0, minute: 0 }, EndTime { hour: 1, minute: 15 })
        ],
    );
}

#[test]
fn schedule_test_try_into_time_slots_ok() {
    let start_time = local(2025, 11, 17, 22, 15);
    let end_time = local(2025, 11, 17, 23, 15);
    let slots = into_time_slots(Interval::from_std(start_time..end_time));
    assert_eq!(slots, vec![(StartTime { hour: 22, minute: 15 }, EndTime { hour: 23, minute: 15 })],);
}

#[test]
fn schedule_test_try_into_time_slots_midnight_ok() {
    let start_time = local(2025, 11, 17, 22, 15);
    let end_time = local(2025, 11, 18, 0, 0);
    let slots = into_time_slots(Interval::from_std(start_time..end_time));
    assert_eq!(slots, vec![(StartTime { hour: 22, minute: 15 }, EndTime { hour: 23, minute: 59 })],);
}

#[test]
fn schedule_test_try_into_time_slots_cross_day_ok() {
    let start_time = local(2025, 11, 17, 22, 15);
    let end_time = local(2025, 11, 18, 1, 15);
    let slots = into_time_slots(Interval::from_std(start_time..end_time));
    assert_eq!(
        slots,
        vec![
            (StartTime { hour: 22, minute: 15 }, EndTime { hour: 23, minute: 59 }),
            (StartTime { hour: 0, minute: 0 }, EndTime { hour: 1, minute: 15 })
        ],
    );
}

fn hourly_plan(modes: &[(u32, PlannedMode)]) -> Vec<(Interval, PlannedMode)> {
    modes
        .iter()
        .map(|(hour, mode)| {
            let start = local(2025, 11, 17, *hour, 0);
            let end = LocalDateTime::at(start.timestamp + 3600);
            (Interval::from_std(start..end), *mode)
        })
        .collect()
}

#[test]
fn time_slot_sequence_merges_and_clips() {
    let plan = hourly_plan(&[
        (9, PlannedMode::Charge),
        (10, PlannedMode::Charge),
        (11, PlannedMode::Idle),
        (12, PlannedMode::Discharge),
    ]);
    let since = local(2025, 11, 17, 10, 30);
    let allowed = RangeInclusive { min: Percentage(10), max: Percentage(90) };
    let sequence = TimeSlotSequence::from_schedule(&plan, since, limits(), allowed).unwrap();
    let slots = sequence.time_slots();
    // 09:00–10:00 has passed; 10:00–11:00 starts at 10:30 and merges with nothing else.
    assert_eq!(slots.len(), 3);
    assert_eq!(slots[0].start_time, StartTime { hour: 10, minute: 30 });
    assert_eq!(slots[0].end_time, EndTime { hour: 11, minute: 0 });
    assert_eq!(slots[0].working_mode, WorkingMode::ForcedCharge);
    assert_eq!(slots[0].feed_power, Watts(1200));
    assert_eq!(slots[1].working_mode, WorkingMode::ForcedCharge);
    assert_eq!(slots[1].feed_power, Watts(0));
    assert_eq!(slots[2].working_mode, WorkingMode::ForcedDischarge);
    assert_eq!(slots[2].feed_power, Watts(800));
    for slot in slots {
        assert!(slot.is_enabled);
        assert_eq!(slot.max_soc, Percentage(90));
        assert_eq!(slot.min_soc_on_grid, Percentage(10));
        assert_eq!(slot.feed_soc, Percentage(10));
    }
}

#[test]
fn time_slot_sequence_merges_neighbours_with_same_mode() {
    let plan = hourly_plan(&[
        (12, PlannedMode::SelfUse),
        (13, PlannedMode::SelfUse),
        (14, PlannedMode::SelfUse),
        (15, PlannedMode::Harvest),
    ]);
    let since = local(2025, 11, 17, 12, 0);
    let allowed = RangeInclusive { min: Percentage(10), max: Percentage(100) };
    let sequence = TimeSlotSequence::from_schedule(&plan, since, limits(), allowed).unwrap();
    let slots = sequence.time_slots();
    assert_eq!(slots.len(), 2);
    assert_eq!(
        (slots[0].start_time, slots[0].end_time, slots[0].working_mode, slots[0].feed_power),
        (StartTime { hour: 12, minute: 0 }, EndTime { hour: 15, minute: 0 }, WorkingMode::SelfUse, Watts(800))
    );
    assert_eq!(
        (slots[1].start_time, slots[1].end_time, slots[1].working_mode, slots[1].feed_power),
        (StartTime { hour: 15, minute: 0 }, EndTime { hour: 16, minute: 0 }, WorkingMode::BatteryPriority, Watts(1200))
    );
}

#[test]
fn time_slot_sequence_keeps_at_most_eight_slots() {
    let modes = [PlannedMode::Charge, PlannedMode::Discharge];
    let plan: Vec<_> = hourly_plan(
        &(0..12).map(|hour| (hour, modes[(hour % 2) as usize])).collect::<Vec<_>>(),
    );
    let since = local(2025, 11, 17, 0, 0);
    let allowed = RangeInclusive { min: Percentage(10), max: Percentage(100) };
    let sequence = TimeSlotSequence::from_schedule(&plan, since, limits(), allowed).unwrap();
    assert_eq!(sequence.time_slots().len(), 8);
    let groups = Groups::from_schedule(&plan, since, limits());
    assert_eq!(groups.0.len(), 12);
}

#[test]
fn groups_split_at_midnight() {
    let start = local(2025, 11, 17, 22, 0);
    let end = local(2025, 11, 18, 2, 0);
    let plan = vec![(Interval::from_std(start..end), PlannedMode::Charge)];
    let groups = Groups::from_schedule(&plan, start, limits());
    assert_eq!(groups.0.len(), 2);
    assert_eq!(groups.0[0].start_time, StartTime { hour: 22, minute: 0 });
    assert_eq!(groups.0[0].end_time, EndTime { hour: 23, minute: 59 });
    assert_eq!(groups.0[1].start_time, StartTime { hour: 0, minute: 0 });
    assert_eq!(groups.0[1].end_time, EndTime { hour: 2, minute: 0 });
    assert_eq!(groups.0[1].extra.feed_power, Watts(1200));
}

#[test]
fn groups_cut_at_end_of_day() {
    let since = local(2025, 11, 17, 12, 0);
    let start = local(2025, 11, 18, 11, 0);
    let end = local(2025, 11, 18, 13, 0);
    let later_start = local(2025, 11, 18, 13, 0);
    let later_end = local(2025, 11, 18, 14, 0);
    let plan = vec![
        (Interval::from_std(start..end), PlannedMode::Discharge),
        (Interval::from_std(later_start..later_end), PlannedMode::Charge),
    ];
    let groups = Groups::from_schedule(&plan, since, limits());
    assert_eq!(groups.0.len(), 1);
    assert_eq!(groups.0[0].start_time, StartTime { hour: 11, minute: 0 });
    assert_eq!(groups.0[0].end_time, EndTime { hour: 12, minute: 0 });
}

#[test]
fn clock_times_are_zero_padded() {
    assert_eq!(StartTime { hour: 7, minute: 5 }.to_text(), "07:05");
    assert_eq!(EndTime { hour: 23, minute: 59 }.to_text(), "23:59");
}

#[test]
fn local_date_time_keeps_timestamp_and_local_fields() {
    let moment = Local.with_ymd_and_hms(2025, 11, 17, 22, 15, 0).unwrap();
    let converted = LocalDateTime::at(moment.timestamp());
    assert_eq!(converted.timestamp, moment.timestamp());
    assert_eq!((converted.hour, converted.minute), (22, 15));
    let next = converted.one_day_later();
    assert_eq!(next.timestamp, moment.timestamp() + 86_400);
    assert_ne!(next.day, converted.day);
}

#[test]
fn every_group_is_a_clock_time() {
    let plan = hourly_plan(&[
        (20, PlannedMode::Charge),
        (21, PlannedMode::SelfUse),
        (22, PlannedMode::Discharge),
        (23, PlannedMode::Harvest),
    ]);
    let since = local(2025, 11, 17, 20, 45);
    let groups = Groups::from_schedule(&plan, since, limits());
    assert_eq!(groups.0.len(), 4);
    for group in &groups.0 {
        assert!(group.start_time.hour < 24 && group.start_time.minute < 60);
        assert!(group.end_time.hour < 24 && group.end_time.minute < 60);
    }
    assert_eq!(groups.0[0].start_time, StartTime { hour: 20, minute: 45 });
    assert_eq!(groups.0[3].end_time, EndTime { hour: 23, minute: 59 });
}
