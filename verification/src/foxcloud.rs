//! Fox Cloud app schedule: up to 96 groups for the next 24 hours.

use vstd::prelude::*;

use crate::battery::BatteryPowerLimits;
use crate::fox_slots::{lemma_no_slot_ends_at_midnight, spec_all_slots, spec_clip_schedule, spec_merge_runs, device_mode, planned_slots, spec_device_mode, spec_planned_slots};
pub use crate::fox_slots::{EndTime, StartTime};
use crate::foxess_mode::WorkingMode;
use crate::plan::PlannedMode;
use crate::quantity::Watts;
use crate::time::{Interval, LocalDateTime, MAX_TIMESTAMP, MIN_TIMESTAMP, SECONDS_PER_DAY};

verus! {

/// Guardrail per the Fox Cloud app: 24 hours of four 15-minute groups.
pub const N_MAX_GROUPS: usize = 96usize;

/// Extra parameters of a schedule group.
#[derive(Clone, Copy, PartialEq, Eq, Structural, Debug)]
pub struct ExtraParameters {
    /// Feed power.
    pub feed_power: Watts,
}

/// One schedule group.
#[derive(Clone, Copy, PartialEq, Eq, Structural, Debug)]
pub struct Group {
    pub start_time: StartTime,
    pub end_time: EndTime,
    pub working_mode: WorkingMode,
    pub extra: ExtraParameters,
}

/// Fox Cloud schedule groups, in order.
pub struct Groups(pub Vec<Group>);

impl View for Groups {
    type V = Seq<Group>;

    open spec fn view(&self) -> Seq<Group> {
        self.0@
    }
}

/// The group for a planned slot.
pub open spec fn spec_group(
    slot: (PlannedMode, StartTime, EndTime),
    limits: BatteryPowerLimits,
) -> Group {
    let (working_mode, feed_power) = spec_device_mode(slot.0, limits);
    Group {
        start_time: slot.1,
        end_time: slot.2,
        working_mode,
        extra: ExtraParameters { feed_power },
    }
}

/// The groups for the period `since..until`: the first 96 planned slots.
pub open spec fn spec_groups(
    schedule: Seq<(Interval, PlannedMode)>,
    since: LocalDateTime,
    until: LocalDateTime,
    limits: BatteryPowerLimits,
) -> Seq<Group> {
    let slots = spec_planned_slots(schedule, since, until);
    let n = if slots.len() < N_MAX_GROUPS {
        slots.len() as int
    } else {
        N_MAX_GROUPS as int
    };
    Seq::new(n as nat, |i: int| spec_group(slots[i], limits))
}

impl Groups {
    /// Build the groups for the 24 hours that start at `since`.
    ///
    /// The period ends at the local date-time of the moment 86400 seconds after `since`, as the
    /// machine's time zone gives it; the contract states its timestamp, and its local fields are
    /// left to the time zone.
    pub fn from_schedule(
        schedule: &Vec<(Interval, PlannedMode)>,
        since: LocalDateTime,
        battery_power_limits: BatteryPowerLimits,
    ) -> (groups: Groups)
        requires
            MIN_TIMESTAMP <= since.timestamp <= MAX_TIMESTAMP - SECONDS_PER_DAY,
        ensures
            exists|until: LocalDateTime|
                until.timestamp == since.timestamp + SECONDS_PER_DAY && until.wf() && groups@
                    == spec_groups(schedule@, since, until, battery_power_limits),
    {
        let until = since.one_day_later();
        Groups::from_schedule_until(schedule, since, until, battery_power_limits)
    }

    /// Build the groups for the period `since..until`.
    pub fn from_schedule_until(
        schedule: &Vec<(Interval, PlannedMode)>,
        since: LocalDateTime,
        until: LocalDateTime,
        battery_power_limits: BatteryPowerLimits,
    ) -> (groups: Groups)
        ensures
            groups@ == spec_groups(schedule@, since, until, battery_power_limits),
    {
        let slots = planned_slots(schedule, since, until);
        let n = if slots.len() < N_MAX_GROUPS {
            slots.len()
        } else {
            N_MAX_GROUPS
        };
        let ghost expected = spec_groups(schedule@, since, until, battery_power_limits);
        let mut groups: Vec<Group> = Vec::new();
        for i in 0..n
            invariant
                n <= slots@.len(),
                slots@ == spec_planned_slots(schedule@, since, until),
                expected == spec_groups(schedule@, since, until, battery_power_limits),
                expected.len() == n,
                groups@ == expected.take(i as int),
        {
            let (mode, start_time, end_time) = slots[i];
            let (working_mode, feed_power) = device_mode(mode, battery_power_limits);
            groups.push(
                Group { start_time, end_time, working_mode, extra: ExtraParameters { feed_power } },
            );
            assert(expected[i as int] == spec_group(slots@[i as int], battery_power_limits));
            assert(expected.take(i + 1) =~= expected.take(i as int).push(groups@.last()));
        }
        assert(expected.take(n as int) =~= expected);
        Groups(groups)
    }
}

/// There are at most 96 groups, and none of them ends at 00:00.
pub proof fn lemma_groups_valid(
    schedule: Seq<(Interval, PlannedMode)>,
    since: LocalDateTime,
    until: LocalDateTime,
    limits: BatteryPowerLimits,
)
    ensures
        spec_groups(schedule, since, until, limits).len() <= N_MAX_GROUPS,
        forall|k: int|
            0 <= k < spec_groups(schedule, since, until, limits).len() ==> (#[trigger] spec_groups(
                schedule,
                since,
                until,
                limits,
            )[k]).end_time != (EndTime { hour: 0, minute: 0 }),
{
    let entries = spec_merge_runs(spec_clip_schedule(schedule, since, until));
    lemma_no_slot_ends_at_midnight(entries);
    let slots = spec_all_slots(entries);
    let groups = spec_groups(schedule, since, until, limits);
    assert forall|k: int| 0 <= k < groups.len() implies (#[trigger] groups[k]).end_time != (
    EndTime { hour: 0, minute: 0 }) by {
        assert(groups[k].end_time == slots[k].2);
    }
}

} // verus!

verus! {

/// Each group covers the clock times of its planned slot and carries the device working mode and
/// feed power of the slot's planned mode: idling is forced charging at 0 W, harvesting is battery
/// priority at the charging power, charging is forced charging at the charging power, self-use
/// is self-use at the discharging power, and discharging is forced discharging at the
/// discharging power.
pub proof fn lemma_group_modes(
    schedule: Seq<(Interval, PlannedMode)>,
    since: LocalDateTime,
    until: LocalDateTime,
    limits: BatteryPowerLimits,
)
    ensures
        forall|k: int|
            0 <= k < spec_groups(schedule, since, until, limits).len() ==> {
                let group = #[trigger] spec_groups(schedule, since, until, limits)[k];
                let slot = spec_planned_slots(schedule, since, until)[k];
                &&& group.start_time == slot.1
                &&& group.end_time == slot.2
                &&& slot.0 == PlannedMode::Idle ==> group.working_mode == WorkingMode::ForcedCharge
                    && group.extra.feed_power == Watts(0)
                &&& slot.0 == PlannedMode::Harvest ==> group.working_mode
                    == WorkingMode::BatteryPriority && group.extra.feed_power == limits.charging
                &&& slot.0 == PlannedMode::Charge ==> group.working_mode == WorkingMode::ForcedCharge
                    && group.extra.feed_power == limits.charging
                &&& slot.0 == PlannedMode::SelfUse ==> group.working_mode == WorkingMode::SelfUse
                    && group.extra.feed_power == limits.discharging
                &&& slot.0 == PlannedMode::Discharge ==> group.working_mode
                    == WorkingMode::ForcedDischarge && group.extra.feed_power == limits.discharging
            },
{
}

} // verus!
