//! The steady-state listening loop, seen from its decisions: what to do
//! with the result of a read, and whether a frame's spectrum raises the
//! alert.
//!
//! The loop itself belongs to the caller, who reads the link, transforms
//! each frame and delivers the alert.

use vstd::prelude::*;
use crate::audio::{promoted, SampleFrame, DEFAULT_FRAME_LENGTH};
use crate::debounce::{fires, next_state, DetectionDebouncer, DEFAULT_MIN_INTERVAL_MS};
use crate::link::LinkError;
use crate::tone::{
    detect, tone_present, PowerWindow, ToneBand, DEFAULT_BAND_HIGH_HZ, DEFAULT_BAND_LOW_HZ,
    DEFAULT_SAMPLE_RATE_HZ,
};

verus! {

/// The pause after a read that timed out, in milliseconds.
pub const READ_BACKOFF_MS: u64 = 250;

/// Every tunable of the pipeline in one place, fixed at startup.
#[derive(Clone, Copy, Debug, PartialEq, Eq, Structural)]
pub struct Tuning {
    /// Samples per second.
    pub sample_rate_hz: u32,
    /// Samples per frame.
    pub frame_length: usize,
    /// The cutoff of the high-pass filter, in hertz.
    pub high_pass_cutoff_hz: u32,
    /// The band in which the tone is looked for.
    pub band: ToneBand,
    /// The power that a bin must exceed to count.
    pub min_power: u32,
    /// The power that a bin must stay under to count.
    pub max_power: u32,
    /// The minimum time between two alerts, in milliseconds.
    pub min_interval_ms: u64,
}

/// The tuning that the system runs with.
pub open spec fn default_tuning() -> Tuning {
    Tuning {
        sample_rate_hz: DEFAULT_SAMPLE_RATE_HZ,
        frame_length: DEFAULT_FRAME_LENGTH,
        high_pass_cutoff_hz: 3000,
        band: ToneBand { low_hz: DEFAULT_BAND_LOW_HZ, high_hz: DEFAULT_BAND_HIGH_HZ },
        min_power: 100,
        max_power: 300,
        min_interval_ms: DEFAULT_MIN_INTERVAL_MS,
    }
}

impl Default for Tuning {
    fn default() -> (t: Tuning)
        ensures
            t == default_tuning(),
    {
        Tuning {
            sample_rate_hz: DEFAULT_SAMPLE_RATE_HZ,
            frame_length: DEFAULT_FRAME_LENGTH,
            high_pass_cutoff_hz: 3000,
            band: ToneBand { low_hz: DEFAULT_BAND_LOW_HZ, high_hz: DEFAULT_BAND_HIGH_HZ },
            min_power: 100,
            max_power: 300,
            min_interval_ms: DEFAULT_MIN_INTERVAL_MS,
        }
    }
}

/// What the loop does after a read.
#[derive(Clone, Copy, Debug, PartialEq, Eq, Structural)]
pub enum NextMove {
    /// Process the bytes as a frame, then read again.
    Process,
    /// Read again at once.
    Retry,
    /// Sleep this many milliseconds, then read again.
    Pause(u64),
    /// Give up: the link is gone.
    Abort,
}

/// The rule of the loop: data is processed, an empty read is nothing, a
/// timeout is a pause and never a failure, and any other error is fatal.
pub open spec fn move_after(read: Result<usize, LinkError>) -> NextMove {
    match read {
        Ok(n) => if n > 0 {
            NextMove::Process
        } else {
            NextMove::Retry
        },
        Err(LinkError::TimedOut) => NextMove::Pause(READ_BACKOFF_MS),
        Err(LinkError::Hard) => NextMove::Abort,
    }
}

/// Decides what the loop does after a read that yielded a number of bytes
/// or failed.
pub fn after_read(read: Result<usize, LinkError>) -> (next: NextMove)
    ensures
        next == move_after(read),
{
    match read {
        Ok(n) => if n > 0 {
            NextMove::Process
        } else {
            NextMove::Retry
        },
        Err(LinkError::TimedOut) => NextMove::Pause(READ_BACKOFF_MS),
        Err(LinkError::Hard) => NextMove::Abort,
    }
}

/// The loop gives up on a hard error and on nothing else.
pub proof fn lemma_only_hard_errors_abort(read: Result<usize, LinkError>)
    ensures
        move_after(read) == NextMove::Abort <==> read == Err::<usize, LinkError>(LinkError::Hard),
        read is Err && read->Err_0.recoverable() ==> move_after(read) == NextMove::Pause(
            READ_BACKOFF_MS,
        ),
{
}

/// The listening loop's part that is carried from frame to frame.
#[derive(Clone, Copy, Debug)]
pub struct Listener {
    tuning: Tuning,
    window: PowerWindow,
    debouncer: DetectionDebouncer,
}

impl Listener {
    /// The tuning that the listener was made with.
    pub closed spec fn tuned(&self) -> Tuning {
        self.tuning
    }

    /// The power window on the scale of the spectrum's levels.
    pub closed spec fn windowed(&self) -> PowerWindow {
        self.window
    }

    /// Whether the listener hears the tone in a spectrum.
    pub open spec fn hears(&self, levels: Seq<u32>) -> bool {
        tone_present(levels, self.tuned().sample_rate_hz, self.tuned().band, self.windowed())
    }

    /// The debouncer as it stands.
    pub closed spec fn debounced(&self) -> DetectionDebouncer {
        self.debouncer
    }

    /// A listener that has seen no frame. `window` is the tuning's power
    /// window on the scale of the levels that `on_spectrum` will be given.
    pub fn new(tuning: Tuning, window: PowerWindow) -> (l: Listener)
        ensures
            l.tuned() == tuning,
            l.windowed() == window,
            l.debounced().interval() == tuning.min_interval_ms,
            !l.debounced().current().last_frame_tone_present,
            l.debounced().current().last_trigger_time is None,
    {
        Listener { tuning, window, debouncer: DetectionDebouncer::new(tuning.min_interval_ms) }
    }

    /// The tuning that the listener was made with.
    pub fn tuning(&self) -> (t: Tuning)
        ensures
            t == self.tuned(),
    {
        self.tuning
    }

    /// The frame that the bytes of one read make: as long as the tuning
    /// says, whatever the number of bytes.
    pub fn frame(&self, bytes: &Vec<u8>) -> (frame: SampleFrame)
        ensures
            frame@ == promoted(bytes@, self.tuned().frame_length as nat),
    {
        SampleFrame::from_bytes(bytes, self.tuning.frame_length)
    }

    /// Takes in the spectrum of one frame, observed at `now_ms`, and says
    /// whether the alert must be raised now.
    pub fn on_spectrum(&mut self, levels: &Vec<u32>, now_ms: u64) -> (alert: bool)
        ensures
            final(self).tuned() == old(self).tuned(),
            final(self).windowed() == old(self).windowed(),
            final(self).debounced().interval() == old(self).debounced().interval(),
            alert == fires(
                old(self).debounced().current(),
                old(self).debounced().interval(),
                old(self).hears(levels@),
                now_ms,
            ),
            final(self).debounced().current() == next_state(
                old(self).debounced().current(),
                old(self).debounced().interval(),
                old(self).hears(levels@),
                now_ms,
            ),
    {
        let tone = detect(levels, self.tuning.sample_rate_hz, self.tuning.band, self.window);
        self.debouncer.observe(tone, now_ms)
    }
}

} // verus!
