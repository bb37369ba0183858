//! Conversion of a planned schedule into Fox ESS time slots.
//!
//! Fox ESS time slots are given by the local clock time of their start and end, and may not
//! cross midnight. A plan is first cut to the 24 hours that start at `since`, neighbouring
//! intervals with the same mode are merged, and each merged interval becomes one or two slots.

use vstd::prelude::*;
use vstd::string::StringExecFns;

use crate::battery::BatteryPowerLimits;
use crate::foxess_mode::WorkingMode;
use crate::plan::PlannedMode;
use crate::quantity::Watts;
use crate::text::{two_digit_text, two_digits};
use crate::time::{Interval, LocalDateTime};

verus! {

/// Time slot start time, inclusive.
#[derive(Clone, Copy, PartialEq, Eq, Structural, Debug)]
pub struct StartTime {
    pub hour: u32,
    pub minute: u32,
}

/// Time slot end time, exclusive; 23:59 stands for the end of the day.
#[derive(Clone, Copy, PartialEq, Eq, Structural, Debug)]
pub struct EndTime {
    pub hour: u32,
    pub minute: u32,
}

/// First minute of a day.
pub open spec fn first_minute() -> StartTime {
    StartTime { hour: 0, minute: 0 }
}

/// Last minute of a day.
pub open spec fn last_minute() -> EndTime {
    EndTime { hour: 23, minute: 59 }
}

/// `hh:mm` text of a clock time.
pub open spec fn clock_text(hour: u32, minute: u32) -> Seq<char> {
    two_digit_text(hour as nat) + seq![':'] + two_digit_text(minute as nat)
}

/// `hh:mm` text of a clock time.
fn clock_string(hour: u32, minute: u32) -> (text: String)
    ensures
        text@ == clock_text(hour, minute),
{
    let mut text = two_digits(hour);
    proof {
        reveal_strlit(":");
    }
    text.append(":");
    let minutes = two_digits(minute);
    text.append(minutes.as_str());
    text
}

impl StartTime {
    /// `hh:mm` text of the time.
    pub fn to_text(&self) -> (text: String)
        ensures
            text@ == clock_text(self.hour, self.minute),
    {
        clock_string(self.hour, self.minute)
    }

    /// Local clock time of the moment.
    pub fn from_moment(moment: LocalDateTime) -> (time: StartTime)
        ensures
            time == (StartTime { hour: moment.hour, minute: moment.minute }),
    {
        StartTime { hour: moment.hour, minute: moment.minute }
    }
}

impl EndTime {
    /// `hh:mm` text of the time.
    pub fn to_text(&self) -> (text: String)
        ensures
            text@ == clock_text(self.hour, self.minute),
    {
        clock_string(self.hour, self.minute)
    }

    /// Local clock time of the moment.
    pub fn from_moment(moment: LocalDateTime) -> (time: EndTime)
        ensures
            time == (EndTime { hour: moment.hour, minute: moment.minute }),
    {
        EndTime { hour: moment.hour, minute: moment.minute }
    }
}

/// The slots covering the interval.
///
/// - An interval ending at 00:00 ends at 23:59 instead, as the device does not accept 00:00 as
///   an end time.
/// - An interval within one day is one slot.
/// - An interval crossing midnight is split into a slot till 23:59 and a slot from 00:00.
pub open spec fn spec_time_slots(interval: Interval) -> Seq<(StartTime, EndTime)> {
    let start_time = StartTime { hour: interval.start.hour, minute: interval.start.minute };
    let end_time = EndTime { hour: interval.end.hour, minute: interval.end.minute };
    if end_time.hour == 0 && end_time.minute == 0 {
        seq![(start_time, last_minute())]
    } else if interval.start.day == interval.end.day {
        seq![(start_time, end_time)]
    } else {
        seq![(start_time, last_minute()), (first_minute(), end_time)]
    }
}

/// Convert the interval into one or two time slots.
pub fn into_time_slots(interval: Interval) -> (slots: Vec<(StartTime, EndTime)>)
    ensures
        slots@ == spec_time_slots(interval),
{
    let start_time = StartTime::from_moment(interval.start);
    let end_time = EndTime::from_moment(interval.end);
    let mut slots: Vec<(StartTime, EndTime)> = Vec::new();
    if end_time.hour == 0 && end_time.minute == 0 {
        slots.push((start_time, EndTime { hour: 23, minute: 59 }));
    } else if interval.start.day == interval.end.day {
        slots.push((start_time, end_time));
    } else {
        slots.push((start_time, EndTime { hour: 23, minute: 59 }));
        slots.push((StartTime { hour: 0, minute: 0 }, end_time));
    }
    assert(slots@ =~= spec_time_slots(interval));
    slots
}

/// The part of a planned interval that matters for the 24 hours `since..until`:
///
/// - an interval that has already begun starts at `since`;
/// - otherwise, an interval running into the next day ends at `until`;
/// - otherwise, an interval within `since..=until` is kept, and any other interval is dropped.
pub open spec fn spec_clip(
    entry: (Interval, PlannedMode),
    since: LocalDateTime,
    until: LocalDateTime,
) -> Option<(Interval, PlannedMode)> {
    let interval = entry.0;
    if interval.spec_contains(since) {
        Some((Interval { start: since, end: interval.end }, entry.1))
    } else if interval.spec_contains(until) {
        Some((Interval { start: interval.start, end: until }, entry.1))
    } else if since.timestamp <= interval.start.timestamp && interval.end.timestamp
        <= until.timestamp {
        Some(entry)
    } else {
        None
    }
}

/// The planned intervals cut to `since..until`, in order.
pub open spec fn spec_clip_schedule(
    schedule: Seq<(Interval, PlannedMode)>,
    since: LocalDateTime,
    until: LocalDateTime,
) -> Seq<(Interval, PlannedMode)>
    decreases schedule.len(),
{
    if schedule.len() == 0 {
        seq![]
    } else {
        let prefix = spec_clip_schedule(schedule.drop_last(), since, until);
        match spec_clip(schedule.last(), since, until) {
            Some(entry) => prefix.push(entry),
            None => prefix,
        }
    }
}

/// Consecutive entries with the same mode merged into one, spanning from the start of the first
/// to the end of the last.
pub open spec fn spec_merge_runs(entries: Seq<(Interval, PlannedMode)>) -> Seq<
    (Interval, PlannedMode),
>
    decreases entries.len(),
{
    if entries.len() == 0 {
        seq![]
    } else {
        let merged = spec_merge_runs(entries.drop_last());
        let entry = entries.last();
        if merged.len() > 0 && merged.last().1 == entry.1 {
            merged.update(
                merged.len() - 1,
                (Interval { start: merged.last().0.start, end: entry.0.end }, entry.1),
            )
        } else {
            merged.push(entry)
        }
    }
}

/// The time slots of one merged entry, tagged with its mode.
pub open spec fn spec_entry_slots(entry: (Interval, PlannedMode)) -> Seq<
    (PlannedMode, StartTime, EndTime),
> {
    spec_time_slots(entry.0).map_values(|slot: (StartTime, EndTime)| (entry.1, slot.0, slot.1))
}

/// The time slots of all the entries, in order.
pub open spec fn spec_all_slots(entries: Seq<(Interval, PlannedMode)>) -> Seq<
    (PlannedMode, StartTime, EndTime),
>
    decreases entries.len(),
{
    if entries.len() == 0 {
        seq![]
    } else {
        spec_all_slots(entries.drop_last()) + spec_entry_slots(entries.last())
    }
}

/// The time slots of the plan for the 24 hours `since..until`.
pub open spec fn spec_planned_slots(
    schedule: Seq<(Interval, PlannedMode)>,
    since: LocalDateTime,
    until: LocalDateTime,
) -> Seq<(PlannedMode, StartTime, EndTime)> {
    spec_all_slots(spec_merge_runs(spec_clip_schedule(schedule, since, until)))
}

/// Cut one planned interval to `since..until`.
fn clip(
    entry: (Interval, PlannedMode),
    since: LocalDateTime,
    until: LocalDateTime,
) -> (clipped: Option<(Interval, PlannedMode)>)
    ensures
        clipped == spec_clip(entry, since, until),
{
    let (interval, mode) = entry;
    if interval.contains(since) {
        Some((interval.with_start(since), mode))
    } else if interval.contains(until) {
        Some((interval.with_end(until), mode))
    } else if since.timestamp <= interval.start.timestamp && interval.end.timestamp
        <= until.timestamp {
        Some(entry)
    } else {
        None
    }
}

/// Append the slots of one merged entry.
fn push_entry_slots(
    slots: &mut Vec<(PlannedMode, StartTime, EndTime)>,
    entry: (Interval, PlannedMode),
)
    ensures
        final(slots)@ == old(slots)@ + spec_entry_slots(entry),
{
    let entry_slots = into_time_slots(entry.0);
    let ghost initial = slots@;
    for k in 0..entry_slots.len()
        invariant
            slots@ == initial + spec_entry_slots(entry).take(k as int),
            entry_slots@ == spec_time_slots(entry.0),
    {
        let (start_time, end_time) = entry_slots[k];
        slots.push((entry.1, start_time, end_time));
        assert(spec_entry_slots(entry).take(k + 1) =~= spec_entry_slots(entry).take(k as int).push(
            (entry.1, start_time, end_time),
        ));
    }
    assert(spec_entry_slots(entry).take(entry_slots@.len() as int) =~= spec_entry_slots(entry));
}

/// The time slots of the plan for the 24 hours `since..until`: the plan is cut to that period,
/// consecutive intervals with the same mode are merged, and each merged interval becomes one or
/// two slots.
pub fn planned_slots(
    schedule: &Vec<(Interval, PlannedMode)>,
    since: LocalDateTime,
    until: LocalDateTime,
) -> (slots: Vec<(PlannedMode, StartTime, EndTime)>)
    ensures
        slots@ == spec_planned_slots(schedule@, since, until),
{
    let mut slots: Vec<(PlannedMode, StartTime, EndTime)> = Vec::new();
    let mut current: Option<(Interval, PlannedMode)> = None;
    let n = schedule.len();
    for i in 0..n
        invariant
            n == schedule@.len(),
            ({
                let runs = spec_merge_runs(spec_clip_schedule(schedule@.take(i as int), since, until));
                &&& current is None <==> runs.len() == 0
                &&& current matches Some(entry) ==> runs.last() == entry
                &&& slots@ == spec_all_slots(
                    if runs.len() == 0 {
                        runs
                    } else {
                        runs.drop_last()
                    },
                )
            }),
    {
        let ghost taken = schedule@.take(i as int);
        let ghost clipped_before = spec_clip_schedule(taken, since, until);
        let ghost runs_before = spec_merge_runs(clipped_before);
        let entry = schedule[i];
        proof {
            assert(schedule@.take(i + 1).drop_last() == taken);
            assert(schedule@.take(i + 1).last() == entry);
        }
        match clip(entry, since, until) {
            None => {},
            Some(clipped) => {
                proof {
                    let clipped_after = clipped_before.push(clipped);
                    assert(clipped_after.drop_last() == clipped_before);
                    assert(clipped_after.last() == clipped);
                }
                match current {
                    Some(open) => {
                        if open.1 == clipped.1 {
                            current = Some(
                                (Interval { start: open.0.start, end: clipped.0.end }, clipped.1),
                            );
                            proof {
                                let runs_after = runs_before.update(
                                    runs_before.len() - 1,
                                    (Interval { start: open.0.start, end: clipped.0.end }, clipped.1),
                                );
                                assert(runs_after.drop_last() =~= runs_before.drop_last());
                            }
                        } else {
                            push_entry_slots(&mut slots, open);
                            current = Some(clipped);
                            proof {
                                let runs_after = runs_before.push(clipped);
                                assert(runs_after.drop_last() == runs_before);
                                assert(runs_before == runs_before.drop_last().push(open));
                            }
                        }
                    },
                    None => {
                        current = Some(clipped);
                        proof {
                            assert(runs_before.push(clipped).drop_last() == runs_before);
                        }
                    },
                }
            },
        }
    }
    proof {
        assert(schedule@.take(n as int) == schedule@);
    }
    match current {
        Some(open) => {
            let ghost runs = spec_merge_runs(spec_clip_schedule(schedule@, since, until));
            proof {
                assert(runs == runs.drop_last().push(open));
            }
            push_entry_slots(&mut slots, open);
        },
        None => {},
    }
    slots
}

/// Device working mode and feed power for a planned mode.
pub open spec fn spec_device_mode(mode: PlannedMode, limits: BatteryPowerLimits) -> (
    WorkingMode,
    Watts,
) {
    match mode {
        PlannedMode::Idle => (WorkingMode::ForcedCharge, Watts(0)),
        PlannedMode::Harvest => (WorkingMode::BatteryPriority, limits.charging),
        PlannedMode::Charge => (WorkingMode::ForcedCharge, limits.charging),
        PlannedMode::SelfUse => (WorkingMode::SelfUse, limits.discharging),
        PlannedMode::Discharge => (WorkingMode::ForcedDischarge, limits.discharging),
    }
}

/// Device working mode and feed power for a planned mode: forced charging at 0 W is effectively
/// idling.
pub fn device_mode(mode: PlannedMode, limits: BatteryPowerLimits) -> (result: (WorkingMode, Watts))
    ensures
        result == spec_device_mode(mode, limits),
{
    match mode {
        PlannedMode::Idle => (WorkingMode::ForcedCharge, Watts(0)),
        PlannedMode::Harvest => (WorkingMode::BatteryPriority, limits.charging),
        PlannedMode::Charge => (WorkingMode::ForcedCharge, limits.charging),
        PlannedMode::SelfUse => (WorkingMode::SelfUse, limits.discharging),
        PlannedMode::Discharge => (WorkingMode::ForcedDischarge, limits.discharging),
    }
}

} // verus!

verus! {

/// No time slot ends at 00:00: the device does not accept it as an end time.
pub proof fn lemma_no_slot_ends_at_midnight(entries: Seq<(Interval, PlannedMode)>)
    ensures
        forall|k: int|
            0 <= k < spec_all_slots(entries).len() ==> (#[trigger] spec_all_slots(entries)[k]).2
                != (EndTime { hour: 0, minute: 0 }),
    decreases entries.len(),
{
    if entries.len() > 0 {
        lemma_no_slot_ends_at_midnight(entries.drop_last());
        let prefix = spec_all_slots(entries.drop_last());
        let last = spec_entry_slots(entries.last());
        assert forall|k: int| 0 <= k < last.len() implies (#[trigger] last[k]).2 != (EndTime {
            hour: 0,
            minute: 0,
        }) by {
            assert(last[k].2 == spec_time_slots(entries.last().0)[k].1);
        }
        assert forall|k: int|
            0 <= k < spec_all_slots(entries).len() implies (#[trigger] spec_all_slots(
            entries,
        )[k]).2 != (EndTime { hour: 0, minute: 0 }) by {
            if k < prefix.len() {
                assert(spec_all_slots(entries)[k] == prefix[k]);
            } else {
                assert(spec_all_slots(entries)[k] == last[k - prefix.len()]);
            }
        }
    }
}

} // verus!

verus! {

/// Merging runs leaves no two neighbouring entries with the same mode, never adds entries, and
/// keeps the start of the first entry, and the end and mode of the last one.
pub proof fn lemma_merged_runs_alternate(entries: Seq<(Interval, PlannedMode)>)
    ensures
        spec_merge_runs(entries).len() <= entries.len(),
        forall|k: int|
            0 <= k < spec_merge_runs(entries).len() - 1 ==> (#[trigger] spec_merge_runs(
                entries,
            )[k]).1 != spec_merge_runs(entries)[k + 1].1,
        entries.len() > 0 ==> {
            let merged = spec_merge_runs(entries);
            &&& merged.len() > 0
            &&& merged[0].0.start == entries[0].0.start
            &&& merged.last().0.end == entries.last().0.end
            &&& merged.last().1 == entries.last().1
        },
    decreases entries.len(),
{
    if entries.len() > 0 {
        let prefix = entries.drop_last();
        lemma_merged_runs_alternate(prefix);
        let before = spec_merge_runs(prefix);
        let merged = spec_merge_runs(entries);
        let entry = entries.last();
        if before.len() > 0 && before.last().1 == entry.1 {
            assert forall|k: int| 0 <= k < merged.len() - 1 implies (#[trigger] merged[k]).1
                != merged[k + 1].1 by {
                assert(merged[k] == before[k]);
                if k + 1 < before.len() - 1 {
                    assert(merged[k + 1] == before[k + 1]);
                } else {
                    assert(merged[k + 1].1 == before[k + 1].1);
                }
            }
            if before.len() > 1 {
                assert(prefix[0] == entries[0]);
            } else {
                assert(prefix.len() > 0);
                assert(prefix[0] == entries[0]);
            }
        } else {
            assert forall|k: int| 0 <= k < merged.len() - 1 implies (#[trigger] merged[k]).1
                != merged[k + 1].1 by {
                assert(merged[k] == before[k]);
                if k + 1 < before.len() {
                    assert(merged[k + 1] == before[k + 1]);
                } else {
                    assert(merged[k + 1] == entry);
                }
            }
            if prefix.len() > 0 {
                assert(prefix[0] == entries[0]);
            }
        }
    }
}

} // verus!

verus! {

/// Every moment of the plan has its clock fields in range.
pub open spec fn moments_wf(entries: Seq<(Interval, PlannedMode)>) -> bool {
    forall|i: int|
        0 <= i < entries.len() ==> (#[trigger] entries[i]).0.start.wf() && entries[i].0.end.wf()
}

/// A slot's start and end are clock times: hours below 24 and minutes below 60.
pub open spec fn slot_is_clock_time(slot: (PlannedMode, StartTime, EndTime)) -> bool {
    &&& slot.1.hour < 24
    &&& slot.1.minute < 60
    &&& slot.2.hour < 24
    &&& slot.2.minute < 60
}

proof fn lemma_clip_keeps_moments_wf(
    schedule: Seq<(Interval, PlannedMode)>,
    since: LocalDateTime,
    until: LocalDateTime,
)
    requires
        moments_wf(schedule),
        since.wf(),
        until.wf(),
    ensures
        moments_wf(spec_clip_schedule(schedule, since, until)),
    decreases schedule.len(),
{
    if schedule.len() > 0 {
        let prefix = schedule.drop_last();
        assert(moments_wf(prefix)) by {
            assert forall|i: int| 0 <= i < prefix.len() implies (#[trigger] prefix[i]).0.start.wf()
                && prefix[i].0.end.wf() by {
                assert(prefix[i] == schedule[i]);
            }
        }
        lemma_clip_keeps_moments_wf(prefix, since, until);
        assert(schedule.last() == schedule[schedule.len() - 1]);
        let clipped = spec_clip_schedule(schedule, since, until);
        let before = spec_clip_schedule(prefix, since, until);
        assert forall|i: int| 0 <= i < clipped.len() implies (#[trigger] clipped[i]).0.start.wf()
            && clipped[i].0.end.wf() by {
            if i < before.len() {
                assert(clipped[i] == before[i]);
            }
        }
    }
}

proof fn lemma_merge_keeps_moments_wf(entries: Seq<(Interval, PlannedMode)>)
    requires
        moments_wf(entries),
    ensures
        moments_wf(spec_merge_runs(entries)),
    decreases entries.len(),
{
    if entries.len() > 0 {
        let prefix = entries.drop_last();
        assert(moments_wf(prefix)) by {
            assert forall|i: int| 0 <= i < prefix.len() implies (#[trigger] prefix[i]).0.start.wf()
                && prefix[i].0.end.wf() by {
                assert(prefix[i] == entries[i]);
            }
        }
        lemma_merge_keeps_moments_wf(prefix);
        assert(entries.last() == entries[entries.len() - 1]);
        let before = spec_merge_runs(prefix);
        let merged = spec_merge_runs(entries);
        assert forall|i: int| 0 <= i < merged.len() implies (#[trigger] merged[i]).0.start.wf()
            && merged[i].0.end.wf() by {
            if i < before.len() {
                assert(before[i].0.start.wf());
                assert(before.last() == before[before.len() - 1]);
            }
        }
    }
}

proof fn lemma_slots_of_wf_moments(entries: Seq<(Interval, PlannedMode)>)
    requires
        moments_wf(entries),
    ensures
        forall|k: int|
            0 <= k < spec_all_slots(entries).len() ==> slot_is_clock_time(
                #[trigger] spec_all_slots(entries)[k],
            ),
    decreases entries.len(),
{
    if entries.len() > 0 {
        let prefix = entries.drop_last();
        assert(moments_wf(prefix)) by {
            assert forall|i: int| 0 <= i < prefix.len() implies (#[trigger] prefix[i]).0.start.wf()
                && prefix[i].0.end.wf() by {
                assert(prefix[i] == entries[i]);
            }
        }
        lemma_slots_of_wf_moments(prefix);
        let entry = entries.last();
        assert(entry == entries[entries.len() - 1]);
        let before = spec_all_slots(prefix);
        let last = spec_entry_slots(entry);
        let slots = spec_all_slots(entries);
        assert forall|k: int| 0 <= k < slots.len() implies slot_is_clock_time(
            #[trigger] slots[k],
        ) by {
            if k < before.len() {
                assert(slots[k] == before[k]);
            } else {
                assert(slots[k] == last[k - before.len()]);
            }
        }
    }
}

/// When every moment of the plan and of the period is a valid local time, every planned slot
/// starts and ends at a clock time: hours below 24 and minutes below 60.
pub proof fn lemma_planned_slots_are_clock_times(
    schedule: Seq<(Interval, PlannedMode)>,
    since: LocalDateTime,
    until: LocalDateTime,
)
    requires
        moments_wf(schedule),
        since.wf(),
        until.wf(),
    ensures
        forall|k: int|
            0 <= k < spec_planned_slots(schedule, since, until).len() ==> slot_is_clock_time(
                #[trigger] spec_planned_slots(schedule, since, until)[k],
            ),
{
    lemma_clip_keeps_moments_wf(schedule, since, until);
    let clipped = spec_clip_schedule(schedule, since, until);
    lemma_merge_keeps_moments_wf(clipped);
    lemma_slots_of_wf_moments(spec_merge_runs(clipped));
}

} // verus!

verus! {

/// A planned interval that runs past the end of the period is cut there: when it starts within
/// the period on the local day on which the period ends, it becomes exactly one slot, from its
/// start to the period end's clock time (unless that time is 00:00, which no slot ends at).
pub proof fn lemma_cut_at_period_end(
    interval: Interval,
    mode: PlannedMode,
    since: LocalDateTime,
    until: LocalDateTime,
)
    requires
        since.timestamp < interval.start.timestamp,
        interval.spec_contains(until),
        interval.start.day == until.day,
        !(until.hour == 0 && until.minute == 0),
    ensures
        spec_planned_slots(seq![(interval, mode)], since, until) == seq![
            (
                mode,
                StartTime { hour: interval.start.hour, minute: interval.start.minute },
                EndTime { hour: until.hour, minute: until.minute },
            ),
        ],
{
    let schedule = seq![(interval, mode)];
    let cut = (Interval { start: interval.start, end: until }, mode);
    assert(schedule.drop_last() =~= Seq::<(Interval, PlannedMode)>::empty());
    assert(spec_clip(schedule.last(), since, until) == Some(cut));
    assert(spec_clip_schedule(schedule.drop_last(), since, until) =~= Seq::<
        (Interval, PlannedMode),
    >::empty());
    let clipped = spec_clip_schedule(schedule, since, until);
    assert(clipped =~= seq![cut]);
    assert(clipped.drop_last() =~= Seq::<(Interval, PlannedMode)>::empty());
    assert(spec_merge_runs(clipped.drop_last()) =~= Seq::<(Interval, PlannedMode)>::empty());
    assert(clipped.last() == cut);
    let merged = spec_merge_runs(clipped);
    assert(merged =~= seq![cut]);
    assert(merged.drop_last() =~= Seq::<(Interval, PlannedMode)>::empty());
    assert(spec_all_slots(merged.drop_last()) =~= Seq::<(PlannedMode, StartTime, EndTime)>::empty());
    assert(merged.last() == cut);
    let slots = spec_all_slots(merged);
    assert(spec_time_slots(cut.0) =~= seq![
        (
            StartTime { hour: interval.start.hour, minute: interval.start.minute },
            EndTime { hour: until.hour, minute: until.minute },
        ),
    ]);
    assert(slots =~= spec_entry_slots(cut));
}

} // verus!
