//! The scheduling loop's state machine.
//!
//! A `ScheduleCursor` walks a fixed-step time grid from the run's start to
//! its end. Each step the driver reports what happened to the selected
//! source frame (none yet, decode failed, or decoded with its dimensions),
//! and `step` decides what to render and how far to advance: by the grid
//! step during the day, by the coarser night step inside the configured
//! night window, and by grid-step catch-up increments when the night step
//! would overshoot the end of the night.

use vstd::prelude::*;

use crate::catalog::{SourceCatalog, SourceFrame};
use crate::timecodec::{MAX_STAMP, MIN_STAMP};

verus! {

/// Seconds in a day.
pub const DAY_SECONDS: i64 = 86400;

/// The scheduling parameters of a run, all in seconds. Time-of-day values
/// are seconds after midnight UTC.
#[derive(Debug)]
pub struct Schedule {
    /// First grid instant, the requested start date at 00:00:00 UTC.
    pub start_date: i64,
    /// Instant the walk stops at, the requested end date at 23:59:59 UTC.
    pub end_date: i64,
    /// Grid step between successive daytime frames; always positive.
    pub duration: i64,
    /// Night window as times of day `(night_start, night_end)`, or `None`
    /// when night handling is disabled.
    pub night_times: Option<(i64, i64)>,
    /// Cadence of night placeholder frames; zero exactly when `skip_night`.
    pub night_duration: i64,
    /// When true, night instants are skipped instead of rendered.
    pub skip_night: bool,
}

impl Schedule {
    /// Well-formedness: the bounds that keep the walk terminating and its
    /// arithmetic inside `i64`.
    pub open spec fn wf(self) -> bool {
        &&& MIN_STAMP <= self.start_date <= MAX_STAMP
        &&& MIN_STAMP <= self.end_date <= MAX_STAMP
        &&& self.start_date <= self.end_date
        &&& 0 < self.duration <= MAX_STAMP
        &&& 0 <= self.night_duration <= MAX_STAMP
        &&& (self.skip_night <==> self.night_duration == 0)
        &&& match self.night_times {
            Some((night_start, night_end)) => {
                &&& 0 <= night_start < DAY_SECONDS
                &&& 0 <= night_end < DAY_SECONDS
                &&& night_start != night_end
            },
            None => true,
        }
    }

    /// The least amount the cursor advances in one step: the night cadence
    /// where placeholders are rendered and it is the finer of the two,
    /// otherwise the grid step.
    pub open spec fn min_advance(self) -> int {
        if !self.skip_night && self.night_duration < self.duration {
            self.night_duration as int
        } else {
            self.duration as int
        }
    }
}

/// Time of day of an instant, as seconds after midnight UTC: the offset
/// into the day since `MIN_STAMP`, which is itself a day boundary.
pub open spec fn spec_time_of_day(stamp: i64) -> int {
    (stamp - MIN_STAMP) % (DAY_SECONDS as int)
}

/// Time of day of a supported instant.
pub fn time_of_day(stamp: i64) -> (r: i64)
    requires
        MIN_STAMP <= stamp <= 2 * MAX_STAMP,
    ensures
        r == spec_time_of_day(stamp),
        0 <= r < DAY_SECONDS,
{
    (stamp - MIN_STAMP) % DAY_SECONDS
}

/// Whether an instant falls inside the night window: its time of day `t`
/// satisfies `t >= night_start || t < night_end`, the disjunction that models
/// a window crossing midnight. A disabled window is never night.
pub open spec fn spec_is_night(night_times: Option<(i64, i64)>, stamp: i64) -> bool {
    match night_times {
        Some((night_start, night_end)) => spec_time_of_day(stamp) >= night_start
            || spec_time_of_day(stamp) < night_end,
        None => false,
    }
}

/// Classifies an instant as night or day against the configured window.
pub fn classify_night(night_times: &Option<(i64, i64)>, stamp: i64) -> (r: bool)
    requires
        MIN_STAMP <= stamp <= 2 * MAX_STAMP,
    ensures
        r == spec_is_night(*night_times, stamp),
{
    match night_times {
        Some((night_start, night_end)) => {
            let t = time_of_day(stamp);
            t >= *night_start || t < *night_end
        },
        None => false,
    }
}

/// The end-of-night anchor for a night entered at `stamp`: the next-day
/// instant at time of day `night_end` when that lies less than a day ahead,
/// otherwise the same-day instant at `night_end`.
pub open spec fn spec_anchor(stamp: i64, night_end: i64) -> int {
    let day_start = stamp - spec_time_of_day(stamp);
    if day_start + DAY_SECONDS + night_end - stamp < DAY_SECONDS {
        day_start + DAY_SECONDS + night_end
    } else {
        day_start + night_end
    }
}

/// Computes the end-of-night anchor.
fn anchor_end(stamp: i64, night_end: i64) -> (r: i64)
    requires
        MIN_STAMP <= stamp <= 2 * MAX_STAMP,
        0 <= night_end < DAY_SECONDS,
    ensures
        r == spec_anchor(stamp, night_end),
        stamp - DAY_SECONDS <= r <= stamp + 2 * DAY_SECONDS,
{
    let day_start = stamp - time_of_day(stamp);
    if day_start + DAY_SECONDS + night_end - stamp < DAY_SECONDS {
        day_start + DAY_SECONDS + night_end
    } else {
        day_start + night_end
    }
}

/// The night-window half of the scheduler's state: either ordinary daytime
/// stepping, or inside a night period with its fixed end-of-night anchor.
#[derive(Clone, Copy, PartialEq, Eq, Structural, Debug)]
pub enum NightState {
    Day,
    NightActive { anchor_end: i64 },
}

/// The mutable state of the scheduling loop: the cursor instant the next
/// frame is due at, and the night-window state.
#[derive(Debug)]
pub struct ScheduleCursor {
    pub current: i64,
    pub night: NightState,
}

/// What the driver observed about the selected source frame at the current
/// cursor instant.
#[derive(Clone, Copy, PartialEq, Eq, Structural, Debug)]
pub enum StepInput {
    /// No catalog entry precedes the cursor yet.
    NoCandidate,
    /// The selected entry's image failed to decode.
    DecodeFailed,
    /// The selected entry, at position `index` in the catalog, decoded with
    /// the given pixel dimensions.
    Decoded { index: usize, width: u32, height: u32 },
}

/// What the driver must do for the step just taken.
#[derive(Clone, Copy, PartialEq, Eq, Structural, Debug)]
pub enum StepAction {
    /// Nothing is written for this instant.
    Skip,
    /// Composite and write the decoded source frame, catalog entry `index`.
    RenderDay { index: usize },
    /// Synthesize and write a solid night placeholder with the given source
    /// dimensions; `index` is the tracked entry the output name borrows its
    /// extension from.
    RenderNight { index: usize, width: u32, height: u32 },
}

/// The cursor instant after grid-step catch-up towards `anchor`: the first
/// value `stamp + k * duration`, `k >= 1`, that reaches or passes the anchor.
pub open spec fn spec_catch_up(stamp: int, anchor: int, duration: int) -> int
    decreases anchor - stamp when 0 < duration
{
    if stamp + duration >= anchor {
        stamp + duration
    } else {
        spec_catch_up(stamp + duration, anchor, duration)
    }
}

/// The transition relation of the scheduling state machine: `post` and
/// `action` are what one `step` from `pre` under `input` yields.
pub open spec fn step_spec(
    pre: ScheduleCursor,
    schedule: Schedule,
    input: StepInput,
    post: ScheduleCursor,
    action: StepAction,
) -> bool {
    match input {
        StepInput::NoCandidate | StepInput::DecodeFailed => {
            &&& action is Skip
            &&& post.current == pre.current + schedule.duration
            &&& post.night == pre.night
        },
        StepInput::Decoded { index, width, height } => {
            if !spec_is_night(schedule.night_times, pre.current) {
                &&& action == (StepAction::RenderDay { index })
                &&& post.current == pre.current + schedule.duration
                &&& post.night is Day
            } else if schedule.skip_night {
                &&& action is Skip
                &&& post.current == pre.current + schedule.duration
                &&& post.night == pre.night
            } else {
                let anchor = (match pre.night {
                    NightState::NightActive { anchor_end } => anchor_end as int,
                    NightState::Day => spec_anchor(pre.current, (schedule.night_times->0).1),
                });
                &&& action == (StepAction::RenderNight { index, width, height })
                &&& if pre.current + schedule.night_duration > anchor {
                    &&& post.night is Day
                    &&& post.current == spec_catch_up(
                        pre.current as int,
                        anchor,
                        schedule.duration as int,
                    )
                } else {
                    &&& post.night == (NightState::NightActive { anchor_end: anchor as i64 })
                    &&& post.current == pre.current + schedule.night_duration
                }
            }
        },
    }
}

/// The step input the driver derives at target instant `target` when every
/// selected image decodes at `(width, height)`: the last catalog entry not
/// after the target, or no candidate when none precedes it yet.
pub open spec fn selected_input(
    frames: Seq<SourceFrame>,
    target: i64,
    width: u32,
    height: u32,
    input: StepInput,
) -> bool {
    match input {
        StepInput::Decoded { index, width: w, height: h } => {
            &&& w == width
            &&& h == height
            &&& index < frames.len()
            &&& frames[index as int].stamp <= target
            &&& forall|j: int| index < j < frames.len() ==> #[trigger] frames[j].stamp > target
        },
        StepInput::NoCandidate => forall|j: int|
            0 <= j < frames.len() ==> #[trigger] frames[j].stamp > target,
        StepInput::DecodeFailed => false,
    }
}

/// Night catch-up bound: started at or before the anchor, grid-step
/// catch-up reaches the anchor but never passes it by more than one grid
/// step.
pub proof fn lemma_catch_up_bound(stamp: int, anchor: int, duration: int)
    requires
        0 < duration,
        stamp <= anchor,
    ensures
        anchor <= spec_catch_up(stamp, anchor, duration) <= anchor + duration,
    decreases anchor - stamp,
{
    if stamp + duration < anchor {
        lemma_catch_up_bound(stamp + duration, anchor, duration);
    }
}

impl ScheduleCursor {
    /// Invariant kept across steps: the cursor is a supported instant and a
    /// live night anchor lies at most two days ahead of it.
    pub open spec fn wf(self) -> bool {
        &&& MIN_STAMP <= self.current
        &&& match self.night {
            NightState::NightActive { anchor_end } => anchor_end
                <= self.current + 2 * DAY_SECONDS,
            NightState::Day => true,
        }
    }

    /// The cursor a run starts from.
    pub fn start(schedule: &Schedule) -> (r: ScheduleCursor)
        requires
            schedule.wf(),
        ensures
            r.wf(),
            r.current == schedule.start_date,
            r.night is Day,
    {
        ScheduleCursor { current: schedule.start_date, night: NightState::Day }
    }

    /// One step of the scheduling loop: decides what to render for the
    /// current instant and advances the cursor.
    ///
    /// A step with no decodable candidate writes nothing and advances by the
    /// grid step; this also covers the instants before the first source
    /// frame becomes available. A daytime step renders the selected frame
    /// and advances by the grid step, dropping any night anchor. A night
    /// step with `skip_night` writes nothing. Otherwise a night step renders
    /// a placeholder and advances by the night cadence, except that a night
    /// cadence that would overshoot the anchored end of night instead
    /// catches up to it in grid-step increments (always at least one) and
    /// returns to daytime stepping.
    pub fn step(&mut self, schedule: &Schedule, input: StepInput) -> (action: StepAction)
        requires
            schedule.wf(),
            old(self).wf(),
            old(self).current < schedule.end_date,
        ensures
            final(self).wf(),
            // Strict progress: the loop terminates within
            // (end - start) / min_advance steps.
            final(self).current >= old(self).current + schedule.min_advance(),
            // A live anchor is never overshot by more than one grid step.
            (match old(self).night {
                NightState::NightActive { anchor_end } => old(self).current <= anchor_end
                    ==> final(self).current <= anchor_end + schedule.duration,
                NightState::Day => true,
            }),
            step_spec(*old(self), *schedule, input, *final(self), action),
    {
        let decoded: Option<(usize, u32, u32)> = match input {
            StepInput::NoCandidate => None,
            StepInput::DecodeFailed => None,
            StepInput::Decoded { index, width, height } => Some((index, width, height)),
        };
        match decoded {
            None => {
                self.current = self.current + schedule.duration;
                StepAction::Skip
            },
            Some((index, width, height)) => {
                if classify_night(&schedule.night_times, self.current) && !schedule.skip_night {
                    let night_end = match &schedule.night_times {
                        Some((_, night_end)) => *night_end,
                        None => 0,  // unreachable: a night instant has a window
                    };
                    let anchor: i64 = match &self.night {
                        NightState::NightActive { anchor_end } => *anchor_end,
                        NightState::Day => anchor_end(self.current, night_end),
                    };
                    if self.current + schedule.night_duration > anchor {
                        let ghost start = self.current as int;
                        self.current = self.current + schedule.duration;
                        proof {
                            reveal_with_fuel(spec_catch_up, 2);
                        }
                        while self.current < anchor
                            invariant
                                schedule.wf(),
                                MIN_STAMP <= start <= MAX_STAMP,
                                anchor <= start + 2 * DAY_SECONDS,
                                self.current <= (if anchor >= start {
                                    anchor as int
                                } else {
                                    start
                                }) + schedule.duration,
                                self.current >= start + schedule.duration,
                                spec_catch_up(start, anchor as int, schedule.duration as int)
                                    == if self.current >= anchor {
                                    self.current as int
                                } else {
                                    spec_catch_up(
                                        self.current as int,
                                        anchor as int,
                                        schedule.duration as int,
                                    )
                                },
                            decreases
                                    (if anchor - self.current >= 0 {
                                        anchor - self.current
                                    } else {
                                        0int
                                    }),
                        {
                            self.current = self.current + schedule.duration;
                            proof {
                                reveal_with_fuel(spec_catch_up, 2);
                            }
                        }
                        self.night = NightState::Day;
                    } else {
                        self.night = NightState::NightActive { anchor_end: anchor };
                        self.current = self.current + schedule.night_duration;
                    }
                    StepAction::RenderNight { index, width, height }
                } else if classify_night(&schedule.night_times, self.current) {
                    // skip_night: nothing is rendered; classification alone
                    // governs when daytime stepping resumes.
                    self.current = self.current + schedule.duration;
                    StepAction::Skip
                } else {
                    self.night = NightState::Day;
                    self.current = self.current + schedule.duration;
                    StepAction::RenderDay { index }
                }
            },
        }
    }
}

/// The walk relation behind `plan`: `states` holds the cursor states the
/// walk passes through, one more than the steps of `walk`. The walk starts
/// from the run's start, ends at the first state at or past the end, and
/// each step records its state's instant and an action such that the
/// nearest-preceding selection at that instant and one `step_spec`
/// transition produce the next state.
pub open spec fn plan_chain(
    states: Seq<ScheduleCursor>,
    catalog: SourceCatalog,
    schedule: Schedule,
    width: u32,
    height: u32,
    walk: Seq<(i64, StepAction)>,
) -> bool {
    &&& states.len() == walk.len() + 1
    &&& states[0] == (ScheduleCursor { current: schedule.start_date, night: NightState::Day })
    &&& states[walk.len() as int].current >= schedule.end_date
    &&& forall|k: int|
        0 <= k < walk.len() ==> {
            &&& (#[trigger] walk[k]).0 == states[k].current
            &&& states[k].current < schedule.end_date
            &&& exists|input: StepInput|
                #![trigger selected_input(catalog.frames@, states[k].current, width, height, input)]
                {
                    &&& selected_input(
                        catalog.frames@,
                        states[k].current,
                        width,
                        height,
                        input,
                    )
                    &&& step_spec(states[k], schedule, input, states[k + 1], walk[k].1)
                }
        }
}

/// The whole scheduling walk, under the assumption that every selected
/// frame decodes at the given dimensions: one `(cursor instant, action)`
/// pair per step, in order. The driver's loop takes the same steps with the
/// real decode outcomes; this walk is what the run does when every source
/// image is readable, free of any input or output. The walk is pinned by
/// `plan_chain`: a chain of cursor states joins every entry to the next by
/// one nearest-preceding selection and one step of the state machine.
///
/// The walk terminates, and its length is bounded: beyond the first step,
/// each step advances the cursor by at least `min_advance`, so fewer than
/// `1 + (end_date - start_date) / min_advance` steps happen in all.
pub fn plan(catalog: &SourceCatalog, schedule: &Schedule, width: u32, height: u32) -> (r: Vec<
    (i64, StepAction),
>)
    requires
        schedule.wf(),
    ensures
        forall|k: int|
            0 <= k < r@.len() ==> schedule.start_date <= (#[trigger] r@[k]).0
                < schedule.end_date,
        forall|k: int|
            0 <= k && k + 1 < r@.len() ==> (#[trigger] r@[k + 1]).0 >= r@[k].0
                + schedule.min_advance(),
        r@.len() > 0 ==> r@[0].0 == schedule.start_date,
        r@.len() > 0 ==> (r@.len() - 1) * schedule.min_advance() < schedule.end_date
            - schedule.start_date,
        r@.len() == 0 <==> schedule.start_date >= schedule.end_date,
        exists|states: Seq<ScheduleCursor>|
            #[trigger] plan_chain(states, *catalog, *schedule, width, height, r@),
        forall|k: int|
            0 <= k < r@.len() ==> match (#[trigger] r@[k]).1 {
                StepAction::RenderDay { index } => index < catalog.frames@.len(),
                StepAction::RenderNight { index, .. } => index < catalog.frames@.len(),
                StepAction::Skip => true,
            },
{
    let mut cursor = ScheduleCursor::start(schedule);
    let ghost mut states: Seq<ScheduleCursor> = seq![cursor];
    let mut out: Vec<(i64, StepAction)> = Vec::new();
    while cursor.current < schedule.end_date
        invariant
            schedule.wf(),
            cursor.wf(),
            states.len() == out@.len() + 1,
            states[0] == (ScheduleCursor {
                current: schedule.start_date,
                night: NightState::Day,
            }),
            states[states.len() - 1] == cursor,
            forall|k: int|
                0 <= k < out@.len() ==> {
                    &&& (#[trigger] out@[k]).0 == states[k].current
                    &&& states[k].current < schedule.end_date
                    &&& exists|input: StepInput|
                        #![trigger selected_input(catalog.frames@, states[k].current, width, height, input)]
                        {
                            &&& selected_input(
                                catalog.frames@,
                                states[k].current,
                                width,
                                height,
                                input,
                            )
                            &&& step_spec(states[k], *schedule, input, states[k + 1], out@[k].1)
                        }
                },
            out@.len() == 0 ==> cursor.current == schedule.start_date,
            out@.len() > 0 ==> cursor.current >= out@[out@.len() - 1].0
                + schedule.min_advance(),
            out@.len() > 0 ==> out@[0].0 == schedule.start_date,
            out@.len() > 0 ==> schedule.start_date + (out@.len() - 1)
                * schedule.min_advance() <= out@[out@.len() - 1].0,
            forall|k: int|
                0 <= k < out@.len() ==> schedule.start_date <= (#[trigger] out@[k]).0
                    < schedule.end_date,
            forall|k: int|
                0 <= k && k + 1 < out@.len() ==> (#[trigger] out@[k + 1]).0 >= out@[k].0
                    + schedule.min_advance(),
            forall|k: int|
                0 <= k < out@.len() ==> match (#[trigger] out@[k]).1 {
                    StepAction::RenderDay { index } => index < catalog.frames@.len(),
                    StepAction::RenderNight { index, .. } => index < catalog.frames@.len(),
                    StepAction::Skip => true,
                },
        decreases
                (if schedule.end_date - cursor.current >= 0 {
                    schedule.end_date - cursor.current
                } else {
                    0int
                }),
    {
        let instant = cursor.current;
        let input = match catalog.select(instant) {
            Some(index) => StepInput::Decoded { index, width, height },
            None => StepInput::NoCandidate,
        };
        let ghost n0 = out@.len() as int;
        let ghost pre = cursor;
        let action = cursor.step(schedule, input);
        out.push((instant, action));
        proof {
            states = states.push(cursor);
            assert(states[n0] == pre && states[n0 + 1] == cursor);
            assert(selected_input(catalog.frames@, instant, width, height, input));
            assert(step_spec(states[n0], *schedule, input, states[n0 + 1], action));
            assert(schedule.min_advance() >= 1);
            assert(cursor.current >= instant + schedule.min_advance());
            assert(out@[out@.len() - 1].0 == instant);
            if n0 > 0 {
                assert(schedule.start_date + (n0 - 1) * schedule.min_advance() <= out@[n0 - 1].0);
                assert(instant >= out@[n0 - 1].0 + schedule.min_advance());
                assert(schedule.start_date + (n0 - 1) * schedule.min_advance() + schedule
                    .min_advance() == schedule.start_date + n0 * schedule.min_advance())
                    by (nonlinear_arith);
                assert(schedule.start_date + n0 * schedule.min_advance() <= instant);
            } else {
                assert(instant == schedule.start_date);
            }
        }
    }
    proof {
        assert(plan_chain(states, *catalog, *schedule, width, height, out@));
    }
    out
}

} // verus!
