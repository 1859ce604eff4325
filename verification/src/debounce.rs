//! Turns the per-frame "tone present" classification into discrete,
//! rate-limited trigger events.
//!
//! Time is a millisecond count supplied by the caller, read from any
//! monotonic clock.

use vstd::prelude::*;

verus! {

/// The minimum time between two triggers that the system runs with.
pub const DEFAULT_MIN_INTERVAL_MS: u64 = 5000;

/// The only state carried from one frame to the next.
#[derive(Clone, Copy, Debug, PartialEq, Eq, Structural)]
pub struct DetectionState {
    /// Whether the previous frame was classified as containing the tone.
    pub last_frame_tone_present: bool,
    /// When the last trigger fired, if one ever did.
    pub last_trigger_time: Option<u64>,
}

/// Time that has passed between `earlier` and `now`; zero where the clock
/// reads less than it did before.
pub open spec fn elapsed_ms(earlier: u64, now: u64) -> int {
    if now >= earlier {
        now - earlier
    } else {
        0
    }
}

/// Whether the cooldown allows a trigger at `now`.
pub open spec fn cooldown_over(state: DetectionState, min_interval_ms: u64, now: u64) -> bool {
    match state.last_trigger_time {
        None => true,
        Some(t) => elapsed_ms(t, now) >= min_interval_ms,
    }
}

/// Whether a frame classified as `tone_present` at time `now` fires a trigger.
pub open spec fn fires(
    state: DetectionState,
    min_interval_ms: u64,
    tone_present: bool,
    now: u64,
) -> bool {
    tone_present && !state.last_frame_tone_present && cooldown_over(state, min_interval_ms, now)
}

/// The state after a frame classified as `tone_present` at time `now`.
pub open spec fn next_state(
    state: DetectionState,
    min_interval_ms: u64,
    tone_present: bool,
    now: u64,
) -> DetectionState {
    DetectionState {
        last_frame_tone_present: tone_present,
        last_trigger_time: if fires(state, min_interval_ms, tone_present, now) {
            Some(now)
        } else {
            state.last_trigger_time
        },
    }
}

/// The state after a run of frames, each a classification and the time at
/// which it was observed.
pub open spec fn state_after(
    start: DetectionState,
    min_interval_ms: u64,
    frames: Seq<(bool, u64)>,
) -> DetectionState
    decreases frames.len(),
{
    if frames.len() == 0 {
        start
    } else {
        next_state(
            state_after(start, min_interval_ms, frames.drop_last()),
            min_interval_ms,
            frames.last().0,
            frames.last().1,
        )
    }
}

/// Whether frame `i` of a run fires a trigger.
pub open spec fn fires_at(
    start: DetectionState,
    min_interval_ms: u64,
    frames: Seq<(bool, u64)>,
    i: int,
) -> bool {
    fires(state_after(start, min_interval_ms, frames.take(i)), min_interval_ms, frames[i].0, frames[i].1)
}

/// Whether the times of a run never go back.
pub open spec fn in_time_order(frames: Seq<(bool, u64)>) -> bool {
    forall|i: int, j: int| 0 <= i <= j < frames.len() ==> frames[i].1 <= frames[j].1
}

/// After any run of frames the state remembers the classification of the
/// last one.
pub proof fn lemma_state_remembers_last_frame(
    start: DetectionState,
    min_interval_ms: u64,
    frames: Seq<(bool, u64)>,
)
    requires
        frames.len() > 0,
    ensures
        state_after(start, min_interval_ms, frames).last_frame_tone_present == frames.last().0,
{
}

/// A trigger fires only on a rising edge: the frame shows the tone and the
/// frame before it did not. A sustained tone therefore fires at most once,
/// on the first frame of its block.
pub proof fn lemma_trigger_only_on_rising_edge(
    start: DetectionState,
    min_interval_ms: u64,
    frames: Seq<(bool, u64)>,
    i: int,
)
    requires
        0 <= i < frames.len(),
        fires_at(start, min_interval_ms, frames, i),
    ensures
        frames[i].0,
        i == 0 ==> !start.last_frame_tone_present,
        i > 0 ==> !frames[i - 1].0,
{
    if i > 0 {
        lemma_state_remembers_last_frame(start, min_interval_ms, frames.take(i));
    } else {
        assert(frames.take(0).len() == 0);
    }
}

/// Once frame `i` has fired, the state after any later frame holds the time
/// of a trigger that is no earlier than frame `i` and no later than the
/// last frame seen.
pub proof fn lemma_last_trigger_is_recent(
    start: DetectionState,
    min_interval_ms: u64,
    frames: Seq<(bool, u64)>,
    i: int,
    k: int,
)
    requires
        0 <= i < k <= frames.len(),
        in_time_order(frames),
        fires_at(start, min_interval_ms, frames, i),
    ensures
        state_after(start, min_interval_ms, frames.take(k)).last_trigger_time is Some,
        frames[i].1 <= state_after(start, min_interval_ms, frames.take(k)).last_trigger_time->0,
        state_after(start, min_interval_ms, frames.take(k)).last_trigger_time->0 <= frames[k - 1].1,
    decreases k,
{
    assert(frames.take(k).drop_last() =~= frames.take(k - 1));
    assert(frames.take(k).last() == frames[k - 1]);
    if k > i + 1 {
        lemma_last_trigger_is_recent(start, min_interval_ms, frames, i, k - 1);
    }
}

/// No two triggers fall within the cooldown: where the times never go back,
/// any two frames that fire lie at least the minimum interval apart,
/// however many frames show the tone between them.
pub proof fn lemma_triggers_are_spaced(
    start: DetectionState,
    min_interval_ms: u64,
    frames: Seq<(bool, u64)>,
    i: int,
    j: int,
)
    requires
        0 <= i < j < frames.len(),
        in_time_order(frames),
        fires_at(start, min_interval_ms, frames, i),
        fires_at(start, min_interval_ms, frames, j),
    ensures
        frames[j].1 - frames[i].1 >= min_interval_ms,
{
    lemma_last_trigger_is_recent(start, min_interval_ms, frames, i, j);
}

/// Debounces the classification stream with a fixed minimum interval
/// between triggers.
#[derive(Clone, Copy, Debug)]
pub struct DetectionDebouncer {
    min_interval_ms: u64,
    state: DetectionState,
}

impl DetectionDebouncer {
    /// The minimum interval between two triggers.
    pub closed spec fn interval(&self) -> u64 {
        self.min_interval_ms
    }

    /// The state carried across frames.
    pub closed spec fn current(&self) -> DetectionState {
        self.state
    }

    /// A debouncer that has seen no frame and fired no trigger.
    pub fn new(min_interval_ms: u64) -> (d: DetectionDebouncer)
        ensures
            d.interval() == min_interval_ms,
            d.current() == (DetectionState {
                last_frame_tone_present: false,
                last_trigger_time: None,
            }),
    {
        DetectionDebouncer {
            min_interval_ms,
            state: DetectionState { last_frame_tone_present: false, last_trigger_time: None },
        }
    }

    /// The minimum interval between two triggers, in milliseconds.
    pub fn min_interval_ms(&self) -> (ms: u64)
        ensures
            ms == self.interval(),
    {
        self.min_interval_ms
    }

    /// The state carried across frames.
    pub fn state(&self) -> (s: DetectionState)
        ensures
            s == self.current(),
    {
        self.state
    }

    /// Takes in one frame's classification at time `now_ms` and says whether
    /// the caller must raise the alert now.
    pub fn observe(&mut self, tone_present: bool, now_ms: u64) -> (trigger: bool)
        ensures
            trigger == fires(old(self).current(), old(self).interval(), tone_present, now_ms),
            final(self).current() == next_state(
                old(self).current(),
                old(self).interval(),
                tone_present,
                now_ms,
            ),
            final(self).interval() == old(self).interval(),
    {
        let rising = tone_present && !self.state.last_frame_tone_present;
        let allowed = match self.state.last_trigger_time {
            None => true,
            Some(t) => {
                let elapsed: u64 = if now_ms >= t {
                    now_ms - t
                } else {
                    0
                };
                elapsed >= self.min_interval_ms
            },
        };
        let trigger = rising && allowed;
        if trigger {
            self.state.last_trigger_time = Some(now_ms);
        }
        self.state.last_frame_tone_present = tone_present;
        trigger
    }
}

} // verus!
