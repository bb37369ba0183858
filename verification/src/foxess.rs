//! Fox ESS Open API schedule: a sequence of up to eight time slots for the next 24 hours.

use vstd::prelude::*;

use crate::battery::BatteryPowerLimits;
use crate::fox_slots::{lemma_no_slot_ends_at_midnight, spec_all_slots, spec_clip_schedule, spec_merge_runs, planned_slots, spec_device_mode, spec_planned_slots, device_mode};
pub use crate::fox_slots::{EndTime, StartTime};
pub use crate::foxess_mode::WorkingMode;
use crate::ops::RangeInclusive;
use crate::plan::PlannedMode;
use crate::quantity::{Percentage, Watts};
use crate::time::{Interval, LocalDateTime, MAX_TIMESTAMP, MIN_TIMESTAMP, SECONDS_PER_DAY};

verus! {

/// The Fox ESS Cloud accepts at most eight time slots.
pub const N_MAX_TIME_SLOTS: usize = 8usize;

/// One Fox ESS schedule time slot.
#[derive(Clone, Copy, PartialEq, Eq, Structural, Debug)]
pub struct TimeSlot {
    pub is_enabled: bool,
    pub start_time: StartTime,
    pub end_time: EndTime,
    pub max_soc: Percentage,
    /// The minimum state of charge of the offline battery.
    pub min_soc_on_grid: Percentage,
    /// Discharge state of charge.
    pub feed_soc: Percentage,
    /// The maximum discharge power; for MQ2200, also the forced charge power.
    pub feed_power: Watts,
    pub working_mode: WorkingMode,
}

/// Fox ESS schedule: ordered time slots.
pub struct TimeSlotSequence(Vec<TimeSlot>);

impl View for TimeSlotSequence {
    type V = Seq<TimeSlot>;

    closed spec fn view(&self) -> Seq<TimeSlot> {
        self.0@
    }
}

/// Errors of building a schedule.
///
/// Within the supported timestamp range every schedule compiles, so none of these arises there.
#[derive(Clone, Copy, PartialEq, Eq, Structural, Debug)]
pub enum ScheduleError {
    /// The end of the 24-hour period has no local time.
    PeriodEndOutOfRange,
}

/// The enabled time slot for a planned slot.
pub open spec fn spec_time_slot(
    slot: (PlannedMode, StartTime, EndTime),
    limits: BatteryPowerLimits,
    allowed_state_of_charge: RangeInclusive<Percentage>,
) -> TimeSlot {
    let (working_mode, feed_power) = spec_device_mode(slot.0, limits);
    TimeSlot {
        is_enabled: true,
        start_time: slot.1,
        end_time: slot.2,
        max_soc: allowed_state_of_charge.max,
        min_soc_on_grid: allowed_state_of_charge.min,
        feed_soc: allowed_state_of_charge.min,
        feed_power,
        working_mode,
    }
}

/// The schedule for the 24 hours `since..until`: the first eight planned slots.
pub open spec fn spec_time_slot_sequence(
    schedule: Seq<(Interval, PlannedMode)>,
    since: LocalDateTime,
    until: LocalDateTime,
    limits: BatteryPowerLimits,
    allowed_state_of_charge: RangeInclusive<Percentage>,
) -> Seq<TimeSlot> {
    let slots = spec_planned_slots(schedule, since, until);
    let n = if slots.len() < N_MAX_TIME_SLOTS {
        slots.len() as int
    } else {
        N_MAX_TIME_SLOTS as int
    };
    Seq::new(n as nat, |i: int| spec_time_slot(slots[i], limits, allowed_state_of_charge))
}

impl TimeSlotSequence {
    /// The sequence of the given time slots.
    pub fn new(time_slots: Vec<TimeSlot>) -> (sequence: TimeSlotSequence)
        ensures
            sequence@ == time_slots@,
    {
        TimeSlotSequence(time_slots)
    }

    /// The time slots, in order.
    pub fn time_slots(&self) -> (slots: &Vec<TimeSlot>)
        ensures
            slots@ == self@,
    {
        &self.0
    }

    /// Build the schedule for the 24 hours that start at `since`.
    ///
    /// The period ends at the local date-time of the moment 86400 seconds after `since`, as the
    /// machine's time zone gives it; the contract states its timestamp, and its local fields are
    /// left to the time zone.
    pub fn from_schedule(
        schedule: &Vec<(Interval, PlannedMode)>,
        since: LocalDateTime,
        battery_power_limits: BatteryPowerLimits,
        allowed_state_of_charge: RangeInclusive<Percentage>,
    ) -> (result: Result<TimeSlotSequence, ScheduleError>)
        requires
            MIN_TIMESTAMP <= since.timestamp <= MAX_TIMESTAMP - SECONDS_PER_DAY,
        ensures
            result is Ok,
            result matches Ok(sequence) ==> exists|until: LocalDateTime|
                until.timestamp == since.timestamp + SECONDS_PER_DAY && until.wf() && sequence@
                    == spec_time_slot_sequence(
                    schedule@,
                    since,
                    until,
                    battery_power_limits,
                    allowed_state_of_charge,
                ),
    {
        let until = since.one_day_later();
        Ok(
            TimeSlotSequence::from_schedule_until(
                schedule,
                since,
                until,
                battery_power_limits,
                allowed_state_of_charge,
            ),
        )
    }

    /// Build the schedule for the period `since..until`.
    pub fn from_schedule_until(
        schedule: &Vec<(Interval, PlannedMode)>,
        since: LocalDateTime,
        until: LocalDateTime,
        battery_power_limits: BatteryPowerLimits,
        allowed_state_of_charge: RangeInclusive<Percentage>,
    ) -> (sequence: TimeSlotSequence)
        ensures
            sequence@ == spec_time_slot_sequence(
                schedule@,
                since,
                until,
                battery_power_limits,
                allowed_state_of_charge,
            ),
    {
        let slots = planned_slots(schedule, since, until);
        let n = if slots.len() < N_MAX_TIME_SLOTS {
            slots.len()
        } else {
            N_MAX_TIME_SLOTS
        };
        let ghost expected = spec_time_slot_sequence(
            schedule@,
            since,
            until,
            battery_power_limits,
            allowed_state_of_charge,
        );
        let mut time_slots: Vec<TimeSlot> = Vec::new();
        for i in 0..n
            invariant
                n <= slots@.len(),
                slots@ == spec_planned_slots(schedule@, since, until),
                expected.len() == n,
                expected == spec_time_slot_sequence(
                    schedule@,
                    since,
                    until,
                    battery_power_limits,
                    allowed_state_of_charge,
                ),
                time_slots@ == expected.take(i as int),
        {
            let (mode, start_time, end_time) = slots[i];
            let (working_mode, feed_power) = device_mode(mode, battery_power_limits);
            time_slots.push(
                TimeSlot {
                    is_enabled: true,
                    start_time,
                    end_time,
                    max_soc: allowed_state_of_charge.max,
                    min_soc_on_grid: allowed_state_of_charge.min,
                    feed_soc: allowed_state_of_charge.min,
                    feed_power,
                    working_mode,
                },
            );
            assert(expected[i as int] == spec_time_slot(
                slots@[i as int],
                battery_power_limits,
                allowed_state_of_charge,
            ));
            assert(expected[i as int] == time_slots@.last());
            assert(expected.take(i + 1) =~= expected.take(i as int).push(time_slots@.last()));
        }
        assert(expected.take(n as int) =~= expected);
        TimeSlotSequence(time_slots)
    }
}

/// Every slot of a schedule is enabled, does not end at 00:00 and carries the allowed state of
/// charge, and a schedule has at most eight slots.
pub proof fn lemma_time_slot_sequence_valid(
    schedule: Seq<(Interval, PlannedMode)>,
    since: LocalDateTime,
    until: LocalDateTime,
    limits: BatteryPowerLimits,
    allowed_state_of_charge: RangeInclusive<Percentage>,
)
    ensures
        spec_time_slot_sequence(schedule, since, until, limits, allowed_state_of_charge).len()
            <= N_MAX_TIME_SLOTS,
        forall|k: int|
            0 <= k < spec_time_slot_sequence(
                schedule,
                since,
                until,
                limits,
                allowed_state_of_charge,
            ).len() ==> {
                let slot = #[trigger] spec_time_slot_sequence(
                    schedule,
                    since,
                    until,
                    limits,
                    allowed_state_of_charge,
                )[k];
                &&& slot.is_enabled
                &&& slot.end_time != (EndTime { hour: 0, minute: 0 })
                &&& slot.max_soc == allowed_state_of_charge.max
                &&& slot.min_soc_on_grid == allowed_state_of_charge.min
                &&& slot.feed_soc == allowed_state_of_charge.min
            },
{
    let entries = spec_merge_runs(spec_clip_schedule(schedule, since, until));
    lemma_no_slot_ends_at_midnight(entries);
    let slots = spec_all_slots(entries);
    let sequence = spec_time_slot_sequence(schedule, since, until, limits, allowed_state_of_charge);
    assert forall|k: int| 0 <= k < sequence.len() implies (#[trigger] sequence[k]).end_time != (
    EndTime { hour: 0, minute: 0 }) by {
        assert(sequence[k].end_time == slots[k].2);
    }
}

} // verus!

verus! {

/// Each time slot covers the clock times of its planned slot and carries the device working mode
/// and feed power of the slot's planned mode: idling is forced charging at 0 W, harvesting is
/// battery priority at the charging power, charging is forced charging at the charging power,
/// self-use is self-use at the discharging power, and discharging is forced discharging at the
/// discharging power.
pub proof fn lemma_time_slot_modes(
    schedule: Seq<(Interval, PlannedMode)>,
    since: LocalDateTime,
    until: LocalDateTime,
    limits: BatteryPowerLimits,
    allowed_state_of_charge: RangeInclusive<Percentage>,
)
    ensures
        forall|k: int|
            0 <= k < spec_time_slot_sequence(
                schedule,
                since,
                until,
                limits,
                allowed_state_of_charge,
            ).len() ==> {
                let time_slot = #[trigger] spec_time_slot_sequence(
                    schedule,
                    since,
                    until,
                    limits,
                    allowed_state_of_charge,
                )[k];
                let slot = spec_planned_slots(schedule, since, until)[k];
                &&& time_slot.start_time == slot.1
                &&& time_slot.end_time == slot.2
                &&& slot.0 == PlannedMode::Idle ==> time_slot.working_mode
                    == WorkingMode::ForcedCharge && time_slot.feed_power == Watts(0)
                &&& slot.0 == PlannedMode::Harvest ==> time_slot.working_mode
                    == WorkingMode::BatteryPriority && time_slot.feed_power == limits.charging
                &&& slot.0 == PlannedMode::Charge ==> time_slot.working_mode
                    == WorkingMode::ForcedCharge && time_slot.feed_power == limits.charging
                &&& slot.0 == PlannedMode::SelfUse ==> time_slot.working_mode
                    == WorkingMode::SelfUse && time_slot.feed_power == limits.discharging
                &&& slot.0 == PlannedMode::Discharge ==> time_slot.working_mode
                    == WorkingMode::ForcedDischarge && time_slot.feed_power == limits.discharging
            },
{
}

} // verus!
