//! Schedules as stored in the battery's Modbus registers: 96 slots addressed by index, each with
//! its clock times, working mode, state-of-charge limits and power.

use vstd::prelude::*;

use crate::battery::{BatteryPowerLimits, WorkingMode};
use crate::ops::RangeInclusive;
use crate::quantity::{Percentage, Watts};
use crate::time::{Interval, LocalDateTime};

verus! {

/// Total number of schedule slots in the register space.
pub const N_TOTAL: usize = 96usize;

/// Number of slots per schedule block.
pub const N_SLOTS_PER_BLOCK: usize = 12usize;

/// Number of schedule blocks; the device reads and writes a block at a time.
pub const N_BLOCKS: usize = 8usize;

/// Slot start or end time.
#[derive(Clone, Copy, PartialEq, Eq, Structural, Debug)]
pub struct NaiveTime {
    pub hour: u8,
    pub minute: u8,
}

/// The first minute of a day.
pub open spec fn time_min() -> NaiveTime {
    NaiveTime { hour: 0, minute: 0 }
}

/// The last minute of a day; as an end time, it is inclusive.
pub open spec fn time_max() -> NaiveTime {
    NaiveTime { hour: 23, minute: 59 }
}

/// Working mode as the battery stores it.
#[derive(Clone, Copy, PartialEq, Eq, Structural, Debug)]
pub enum SlotWorkingMode {
    /// Charge on excess, discharge on deficit.
    SelfUse,
    /// Discharge on deficit.
    FeedInPriority,
    /// Charge on excess.
    BackUp,
    PeakShaving,
    /// Forcibly charge.
    ForceCharge,
    /// Forcibly discharge.
    ForceDischarge,
}

/// Single schedule slot.
#[derive(Clone, Copy, PartialEq, Eq, Structural, Debug)]
pub struct Slot {
    pub is_enabled: bool,
    /// Start time, inclusive.
    pub start_time: NaiveTime,
    /// End time, exclusive; 23:59 is inclusive, and 00:00 cannot be an end time.
    pub end_time: NaiveTime,
    pub working_mode: SlotWorkingMode,
    pub max_state_of_charge: Percentage,
    pub min_state_of_charge: Percentage,
    /// Target state of charge for charging or discharging.
    pub target_state_of_charge: Percentage,
    /// Power in watts.
    pub power: u16,
    pub reserved_1: u16,
    pub reserved_2: u16,
    pub reserved_3: u16,
}

/// Watts as the device stores them: negative values become zero, large ones become 65535.
pub open spec fn spec_power_register(power: Watts) -> u16 {
    if power.0 < 0 {
        0
    } else if power.0 > u16::MAX {
        u16::MAX
    } else {
        power.0 as u16
    }
}

/// Watts as the device stores them.
pub fn power_register(power: Watts) -> (register: u16)
    ensures
        register == spec_power_register(power),
{
    if power.0 < 0 {
        0
    } else if power.0 > u16::MAX as i64 {
        u16::MAX
    } else {
        power.0 as u16
    }
}

/// Device working mode, target state of charge and power for a battery working mode.
pub open spec fn spec_slot_settings(
    mode: WorkingMode,
    allowed_soc: RangeInclusive<Percentage>,
    limits: BatteryPowerLimits,
) -> (SlotWorkingMode, Percentage, Watts) {
    match mode {
        WorkingMode::Idle => (SlotWorkingMode::ForceCharge, allowed_soc.max, Watts(0)),
        WorkingMode::Harness => (SlotWorkingMode::BackUp, allowed_soc.max, limits.charging),
        WorkingMode::Charge => (SlotWorkingMode::ForceCharge, allowed_soc.max, limits.charging),
        WorkingMode::SelfUse => (SlotWorkingMode::SelfUse, allowed_soc.min, limits.discharging),
        WorkingMode::Discharge => (
            SlotWorkingMode::ForceDischarge,
            allowed_soc.min,
            limits.discharging,
        ),
        WorkingMode::Compensate => (
            SlotWorkingMode::FeedInPriority,
            allowed_soc.min,
            limits.discharging,
        ),
    }
}

/// Device working mode, target state of charge and power for a battery working mode: forced
/// charging at 0 W is effectively idling.
pub fn slot_settings(
    mode: WorkingMode,
    allowed_soc: RangeInclusive<Percentage>,
    limits: BatteryPowerLimits,
) -> (settings: (SlotWorkingMode, Percentage, Watts))
    ensures
        settings == spec_slot_settings(mode, allowed_soc, limits),
{
    match mode {
        WorkingMode::Idle => (SlotWorkingMode::ForceCharge, allowed_soc.max, Watts(0)),
        WorkingMode::Harness => (SlotWorkingMode::BackUp, allowed_soc.max, limits.charging),
        WorkingMode::Charge => (SlotWorkingMode::ForceCharge, allowed_soc.max, limits.charging),
        WorkingMode::SelfUse => (SlotWorkingMode::SelfUse, allowed_soc.min, limits.discharging),
        WorkingMode::Discharge => (
            SlotWorkingMode::ForceDischarge,
            allowed_soc.min,
            limits.discharging,
        ),
        WorkingMode::Compensate => (
            SlotWorkingMode::FeedInPriority,
            allowed_soc.min,
            limits.discharging,
        ),
    }
}

/// Enabled slot covering `start_time..end_time` in the given mode.
pub open spec fn spec_enabled_slot(
    mode: WorkingMode,
    start_time: NaiveTime,
    end_time: NaiveTime,
    allowed_soc: RangeInclusive<Percentage>,
    limits: BatteryPowerLimits,
) -> Slot {
    let (working_mode, target, power) = spec_slot_settings(mode, allowed_soc, limits);
    Slot {
        is_enabled: true,
        start_time,
        end_time,
        working_mode,
        max_state_of_charge: allowed_soc.max,
        min_state_of_charge: allowed_soc.min,
        target_state_of_charge: target,
        power: spec_power_register(power),
        reserved_1: 0,
        reserved_2: 0,
        reserved_3: 0,
    }
}

/// Enabled slot covering `start_time..end_time` in the given mode.
pub fn enabled_slot(
    mode: WorkingMode,
    start_time: NaiveTime,
    end_time: NaiveTime,
    allowed_soc: RangeInclusive<Percentage>,
    limits: BatteryPowerLimits,
) -> (slot: Slot)
    ensures
        slot == spec_enabled_slot(mode, start_time, end_time, allowed_soc, limits),
{
    let (working_mode, target, power) = slot_settings(mode, allowed_soc, limits);
    Slot {
        is_enabled: true,
        start_time,
        end_time,
        working_mode,
        max_state_of_charge: allowed_soc.max,
        min_state_of_charge: allowed_soc.min,
        target_state_of_charge: target,
        power: power_register(power),
        reserved_1: 0,
        reserved_2: 0,
        reserved_3: 0,
    }
}

/// Index of the 15-minute slot that starts at the interval's start.
pub open spec fn spec_index_of(interval: Interval) -> int {
    interval.start.hour * 4 + interval.start.minute / 15
}

/// Get the schedule slot index corresponding to the interval.
pub fn index_of(interval: Interval) -> (index: u8)
    requires
        interval.start.wf(),
    ensures
        index == spec_index_of(interval),
{
    let start = interval.start;
    (start.hour * 4 + start.minute / 15) as u8
}

/// Clock times of the 15-minute slot with the given index; the last slot ends at 23:59.
pub open spec fn spec_slot_interval(index: u8) -> (NaiveTime, NaiveTime) {
    let start = NaiveTime { hour: (index / 4) as u8, minute: ((index % 4) * 15) as u8 };
    let end = if index == N_TOTAL - 1 {
        time_max()
    } else {
        NaiveTime { hour: ((index + 1) / 4) as u8, minute: (((index + 1) % 4) * 15) as u8 }
    };
    (start, end)
}

/// Clock times of the 15-minute slot with the given index.
pub fn slot_interval(index: u8) -> (times: (NaiveTime, NaiveTime))
    requires
        index < u8::MAX,
    ensures
        times == spec_slot_interval(index),
{
    let start = NaiveTime { hour: index / 4, minute: (index % 4) * 15 };
    let end = if index as usize == N_TOTAL - 1 {
        NaiveTime { hour: 23, minute: 59 }
    } else {
        NaiveTime { hour: (index + 1) / 4, minute: ((index + 1) % 4) * 15 }
    };
    (start, end)
}

/// Make the schedule slot with the given index according to the working mode and limits.
pub fn make_slot(
    slot_index: u8,
    working_mode: WorkingMode,
    allowed_soc: RangeInclusive<Percentage>,
    power_limits: BatteryPowerLimits,
) -> (slot: Slot)
    requires
        slot_index < u8::MAX,
    ensures
        slot == spec_enabled_slot(
            working_mode,
            spec_slot_interval(slot_index).0,
            spec_slot_interval(slot_index).1,
            allowed_soc,
            power_limits,
        ),
{
    let (start_time, end_time) = slot_interval(slot_index);
    enabled_slot(working_mode, start_time, end_time, allowed_soc, power_limits)
}

/// Slot intervals and slot indices agree: a slot starts where its predecessor ends, and an
/// interval starting at a slot's start time maps back to that slot.
pub proof fn lemma_slot_indices_round_trip(index: u8, interval: Interval)
    requires
        (index as int) < N_TOTAL,
        interval.start.hour == spec_slot_interval(index).0.hour,
        interval.start.minute == spec_slot_interval(index).0.minute,
    ensures
        spec_index_of(interval) == index,
        (index as int) + 1 < N_TOTAL ==> spec_slot_interval(index).1 == spec_slot_interval(
            (index + 1) as u8,
        ).0,
        spec_slot_interval(index).1 != (NaiveTime { hour: 0, minute: 0 }),
{
}

/// Clock time of the moment as the device stores it.
pub open spec fn spec_naive_time(moment: LocalDateTime) -> NaiveTime {
    NaiveTime { hour: moment.hour as u8, minute: moment.minute as u8 }
}

/// The slots covering the interval: an interval ending at 00:00 ends at 23:59 instead, and an
/// interval crossing midnight is split in two.
pub open spec fn spec_naive_slots(interval: Interval) -> Seq<(NaiveTime, NaiveTime)> {
    let start_time = spec_naive_time(interval.start);
    let end_time = spec_naive_time(interval.end);
    if end_time.hour == 0 && end_time.minute == 0 {
        seq![(start_time, time_max())]
    } else if interval.start.day == interval.end.day {
        seq![(start_time, end_time)]
    } else {
        seq![(start_time, time_max()), (time_min(), end_time)]
    }
}

/// Convert the interval into one or two slot time spans.
pub fn into_naive_slots(interval: Interval) -> (slots: Vec<(NaiveTime, NaiveTime)>)
    requires
        interval.start.wf(),
        interval.end.wf(),
    ensures
        slots@ == spec_naive_slots(interval),
{
    let start_time = NaiveTime { hour: interval.start.hour as u8, minute: interval.start.minute as u8 };
    let end_time = NaiveTime { hour: interval.end.hour as u8, minute: interval.end.minute as u8 };
    let mut slots: Vec<(NaiveTime, NaiveTime)> = Vec::new();
    if end_time.hour == 0 && end_time.minute == 0 {
        slots.push((start_time, NaiveTime { hour: 23, minute: 59 }));
    } else if interval.start.day == interval.end.day {
        slots.push((start_time, end_time));
    } else {
        slots.push((start_time, NaiveTime { hour: 23, minute: 59 }));
        slots.push((NaiveTime { hour: 0, minute: 0 }, end_time));
    }
    assert(slots@ =~= spec_naive_slots(interval));
    slots
}

/// The slot time spans of every interval of the plan, in order, tagged with the mode.
pub open spec fn spec_mode_slots(schedule: Seq<(Interval, WorkingMode)>) -> Seq<
    (WorkingMode, NaiveTime, NaiveTime),
>
    decreases schedule.len(),
{
    if schedule.len() == 0 {
        seq![]
    } else {
        let entry = schedule.last();
        spec_mode_slots(schedule.drop_last()) + spec_naive_slots(entry.0).map_values(
            |span: (NaiveTime, NaiveTime)| (entry.1, span.0, span.1),
        )
    }
}

/// Every interval of the plan has valid local clock fields.
pub open spec fn schedule_wf(schedule: Seq<(Interval, WorkingMode)>) -> bool {
    forall|i: int| 0 <= i < schedule.len() ==> (#[trigger] schedule[i]).0.start.wf() && schedule[i].0.end.wf()
}

/// A slot that the device ignores.
pub open spec fn spec_disabled_slot(charge_range: RangeInclusive<Percentage>) -> Slot {
    Slot {
        is_enabled: false,
        start_time: time_min(),
        end_time: time_min(),
        working_mode: SlotWorkingMode::SelfUse,
        max_state_of_charge: charge_range.max,
        min_state_of_charge: charge_range.min,
        target_state_of_charge: Percentage(100),
        power: 0,
        reserved_1: 0,
        reserved_2: 0,
        reserved_3: 0,
    }
}

/// The full device schedule for a plan: the first 96 slot spans become enabled slots, and the
/// remaining slots are disabled.
pub open spec fn spec_full_schedule(
    schedule: Seq<(Interval, WorkingMode)>,
    charge_range: RangeInclusive<Percentage>,
    limits: BatteryPowerLimits,
) -> Seq<Slot> {
    let spans = spec_mode_slots(schedule);
    Seq::new(
        N_TOTAL as nat,
        |i: int|
            if i < spans.len() {
                spec_enabled_slot(spans[i].0, spans[i].1, spans[i].2, charge_range, limits)
            } else {
                spec_disabled_slot(charge_range)
            },
    )
}

/// Build the full device schedule for the plan.
pub fn build(
    schedule: &Vec<(Interval, WorkingMode)>,
    charge_range: RangeInclusive<Percentage>,
    battery_power_limits: BatteryPowerLimits,
) -> (slots: Vec<Slot>)
    requires
        schedule_wf(schedule@),
    ensures
        slots@ == spec_full_schedule(schedule@, charge_range, battery_power_limits),
{
    let mut spans: Vec<(WorkingMode, NaiveTime, NaiveTime)> = Vec::new();
    for i in 0..schedule.len()
        invariant
            schedule_wf(schedule@),
            spans@ == spec_mode_slots(schedule@.take(i as int)),
    {
        let (interval, mode) = schedule[i];
        let interval_spans = into_naive_slots(interval);
        let ghost before = spans@;
        let ghost tagged = spec_naive_slots(interval).map_values(
            |span: (NaiveTime, NaiveTime)| (mode, span.0, span.1),
        );
        for k in 0..interval_spans.len()
            invariant
                interval_spans@ == spec_naive_slots(interval),
                tagged == spec_naive_slots(interval).map_values(
                    |span: (NaiveTime, NaiveTime)| (mode, span.0, span.1),
                ),
                spans@ == before + tagged.take(k as int),
        {
            let (start_time, end_time) = interval_spans[k];
            spans.push((mode, start_time, end_time));
            assert(tagged.take(k + 1) =~= tagged.take(k as int).push((mode, start_time, end_time)));
        }
        proof {
            assert(tagged.take(interval_spans@.len() as int) =~= tagged);
            assert(schedule@.take(i + 1).drop_last() =~= schedule@.take(i as int));
            assert(schedule@.take(i + 1).last() == (interval, mode));
        }
    }
    assert(schedule@.take(schedule@.len() as int) =~= schedule@);
    let ghost expected = spec_full_schedule(schedule@, charge_range, battery_power_limits);
    let mut slots: Vec<Slot> = Vec::new();
    for i in 0..N_TOTAL
        invariant
            spans@ == spec_mode_slots(schedule@),
            expected == spec_full_schedule(schedule@, charge_range, battery_power_limits),
            slots@ == expected.take(i as int),
    {
        let slot = if i < spans.len() {
            let (mode, start_time, end_time) = spans[i];
            enabled_slot(mode, start_time, end_time, charge_range, battery_power_limits)
        } else {
            Slot {
                is_enabled: false,
                start_time: NaiveTime { hour: 0, minute: 0 },
                end_time: NaiveTime { hour: 0, minute: 0 },
                working_mode: SlotWorkingMode::SelfUse,
                max_state_of_charge: charge_range.max,
                min_state_of_charge: charge_range.min,
                target_state_of_charge: Percentage(100),
                power: 0,
                reserved_1: 0,
                reserved_2: 0,
                reserved_3: 0,
            }
        };
        slots.push(slot);
        assert(expected[i as int] == slot);
        assert(expected.take(i + 1) =~= expected.take(i as int).push(slot));
    }
    assert(expected.take(N_TOTAL as int) =~= expected);
    slots
}

/// A full schedule has exactly 96 slots; the enabled ones come first, one per slot span of the
/// plan, and none of them ends at 00:00.
pub proof fn lemma_full_schedule_shape(
    schedule: Seq<(Interval, WorkingMode)>,
    charge_range: RangeInclusive<Percentage>,
    limits: BatteryPowerLimits,
)
    ensures
        spec_full_schedule(schedule, charge_range, limits).len() == N_TOTAL,
        forall|i: int|
            0 <= i < N_TOTAL ==> ((#[trigger] spec_full_schedule(schedule, charge_range, limits)[i]).is_enabled
                <==> i < spec_mode_slots(schedule).len()),
        forall|i: int|
            0 <= i < N_TOTAL && (#[trigger] spec_full_schedule(schedule, charge_range, limits)[i]).is_enabled
                ==> spec_full_schedule(schedule, charge_range, limits)[i].end_time != time_min(),
{
    lemma_mode_slots_never_end_at_midnight(schedule);
}

/// No slot span ends at 00:00.
proof fn lemma_mode_slots_never_end_at_midnight(schedule: Seq<(Interval, WorkingMode)>)
    ensures
        forall|k: int|
            0 <= k < spec_mode_slots(schedule).len() ==> (#[trigger] spec_mode_slots(schedule)[k]).2
                != time_min(),
    decreases schedule.len(),
{
    if schedule.len() > 0 {
        lemma_mode_slots_never_end_at_midnight(schedule.drop_last());
        let prefix = spec_mode_slots(schedule.drop_last());
        let entry = schedule.last();
        let last = spec_naive_slots(entry.0).map_values(
            |span: (NaiveTime, NaiveTime)| (entry.1, span.0, span.1),
        );
        let all = spec_mode_slots(schedule);
        assert(all == prefix + last);
        assert forall|k: int| 0 <= k < all.len() implies (#[trigger] all[k]).2 != time_min() by {
            if k >= prefix.len() {
                assert(all[k] == last[k - prefix.len()]);
                assert(last[k - prefix.len()].2 == spec_naive_slots(entry.0)[k - prefix.len()].1);
            } else {
                assert(all[k] == prefix[k]);
            }
        }
    }
}

/// Split a full schedule into the blocks that the device writes one at a time: block `b` holds
/// slots `12 b` to `12 b + 11`.
pub fn schedule_blocks(schedule: &Vec<Slot>) -> (blocks: Vec<Vec<Slot>>)
    requires
        schedule@.len() == N_TOTAL,
    ensures
        blocks@.len() == N_BLOCKS,
        forall|b: int| 0 <= b < N_BLOCKS ==> (#[trigger] blocks@[b])@.len() == N_SLOTS_PER_BLOCK,
        forall|b: int, e: int|
            0 <= b < N_BLOCKS && 0 <= e < N_SLOTS_PER_BLOCK ==> #[trigger] blocks@[b]@[e]
                == schedule@[b * 12 + e],
{
    let mut blocks: Vec<Vec<Slot>> = Vec::new();
    let mut offset: usize = 0;
    for block_index in 0..N_BLOCKS
        invariant
            schedule@.len() == N_TOTAL,
            offset == block_index * 12,
            blocks@.len() == block_index,
            forall|b: int| 0 <= b < block_index ==> (#[trigger] blocks@[b])@.len() == N_SLOTS_PER_BLOCK,
            forall|b: int, e: int|
                0 <= b < block_index && 0 <= e < N_SLOTS_PER_BLOCK ==> #[trigger] blocks@[b]@[e]
                    == schedule@[b * 12 + e],
    {
        let mut block: Vec<Slot> = Vec::new();
        for entry_index in 0..N_SLOTS_PER_BLOCK
            invariant
                schedule@.len() == N_TOTAL,
                offset == block_index * 12,
                block_index < N_BLOCKS,
                block@.len() == entry_index,
                forall|e: int| 0 <= e < entry_index ==> #[trigger] block@[e] == schedule@[offset + e],
        {
            block.push(schedule[offset + entry_index]);
        }
        blocks.push(block);
        offset = offset + N_SLOTS_PER_BLOCK;
    }
    blocks
}

} // verus!

verus! {

/// Power register value of a limit: the watts clamped to `0..=65535`.
pub open spec fn clamped_watts(power: Watts) -> int {
    if power.0 < 0 {
        0
    } else if power.0 > 65535 {
        65535
    } else {
        power.0 as int
    }
}

/// An enabled slot holds the allowed state-of-charge range, targets its maximum in a charging
/// mode (idle, harness, charge) and its minimum in a discharging mode (self-use, discharge,
/// compensate), and carries the device mode and power of the battery mode: idling is forced
/// charging at 0 W, harness is back-up at the charging power, charge is forced charging at the
/// charging power, self-use is self-use at the discharging power, discharge is forced
/// discharging at the discharging power, and compensate is feed-in priority at the discharging
/// power.
pub proof fn lemma_enabled_slot_settings(
    mode: WorkingMode,
    start_time: NaiveTime,
    end_time: NaiveTime,
    allowed_soc: RangeInclusive<Percentage>,
    limits: BatteryPowerLimits,
)
    ensures
        ({
            let slot = spec_enabled_slot(mode, start_time, end_time, allowed_soc, limits);
            &&& slot.is_enabled
            &&& slot.start_time == start_time
            &&& slot.end_time == end_time
            &&& slot.max_state_of_charge == allowed_soc.max
            &&& slot.min_state_of_charge == allowed_soc.min
            &&& (mode == WorkingMode::Idle || mode == WorkingMode::Harness || mode
                == WorkingMode::Charge) ==> slot.target_state_of_charge == allowed_soc.max
            &&& (mode == WorkingMode::SelfUse || mode == WorkingMode::Discharge || mode
                == WorkingMode::Compensate) ==> slot.target_state_of_charge == allowed_soc.min
            &&& mode == WorkingMode::Idle ==> slot.working_mode == SlotWorkingMode::ForceCharge
                && slot.power == 0
            &&& mode == WorkingMode::Harness ==> slot.working_mode == SlotWorkingMode::BackUp
                && slot.power == clamped_watts(limits.charging)
            &&& mode == WorkingMode::Charge ==> slot.working_mode == SlotWorkingMode::ForceCharge
                && slot.power == clamped_watts(limits.charging)
            &&& mode == WorkingMode::SelfUse ==> slot.working_mode == SlotWorkingMode::SelfUse
                && slot.power == clamped_watts(limits.discharging)
            &&& mode == WorkingMode::Discharge ==> slot.working_mode
                == SlotWorkingMode::ForceDischarge && slot.power == clamped_watts(
                limits.discharging,
            )
            &&& mode == WorkingMode::Compensate ==> slot.working_mode
                == SlotWorkingMode::FeedInPriority && slot.power == clamped_watts(
                limits.discharging,
            )
        }),
{
}

/// Every enabled slot of a full schedule is the slot of its span of the plan: it covers the
/// span's clock times and has the settings of the span's battery mode, so a charging mode
/// targets the maximum allowed state of charge and a discharging mode the minimum.
pub proof fn lemma_full_schedule_targets(
    schedule: Seq<(Interval, WorkingMode)>,
    charge_range: RangeInclusive<Percentage>,
    limits: BatteryPowerLimits,
)
    ensures
        forall|i: int|
            0 <= i < spec_mode_slots(schedule).len() && i < N_TOTAL ==> {
                let slot = #[trigger] spec_full_schedule(schedule, charge_range, limits)[i];
                let span = spec_mode_slots(schedule)[i];
                &&& slot.is_enabled
                &&& slot.start_time == span.1
                &&& slot.end_time == span.2
                &&& (span.0 == WorkingMode::Idle || span.0 == WorkingMode::Harness || span.0
                    == WorkingMode::Charge) ==> slot.target_state_of_charge == charge_range.max
                &&& (span.0 == WorkingMode::SelfUse || span.0 == WorkingMode::Discharge || span.0
                    == WorkingMode::Compensate) ==> slot.target_state_of_charge
                    == charge_range.min
                &&& span.0 == WorkingMode::Charge ==> slot.working_mode
                    == SlotWorkingMode::ForceCharge && slot.power == clamped_watts(limits.charging)
                &&& span.0 == WorkingMode::Idle ==> slot.working_mode
                    == SlotWorkingMode::ForceCharge && slot.power == 0
            },
{
    assert forall|i: int| 0 <= i < spec_mode_slots(schedule).len() && i < N_TOTAL implies {
        let slot = #[trigger] spec_full_schedule(schedule, charge_range, limits)[i];
        let span = spec_mode_slots(schedule)[i];
        &&& slot.is_enabled
        &&& slot.start_time == span.1
        &&& slot.end_time == span.2
        &&& (span.0 == WorkingMode::Idle || span.0 == WorkingMode::Harness || span.0
            == WorkingMode::Charge) ==> slot.target_state_of_charge == charge_range.max
        &&& (span.0 == WorkingMode::SelfUse || span.0 == WorkingMode::Discharge || span.0
            == WorkingMode::Compensate) ==> slot.target_state_of_charge == charge_range.min
        &&& span.0 == WorkingMode::Charge ==> slot.working_mode == SlotWorkingMode::ForceCharge
            && slot.power == clamped_watts(limits.charging)
        &&& span.0 == WorkingMode::Idle ==> slot.working_mode == SlotWorkingMode::ForceCharge
            && slot.power == 0
    } by {
        let span = spec_mode_slots(schedule)[i];
        lemma_enabled_slot_settings(span.0, span.1, span.2, charge_range, limits);
    }
}

} // verus!
