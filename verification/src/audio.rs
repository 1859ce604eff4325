//! Sample frames and the integer stage of the high-pass filter.
//!
//! The link delivers 8-bit units. Each becomes one sample of 16 bits, by
//! value: a byte is not sign-extended and not scaled, so samples lie in
//! 0..=255. The detection thresholds are tuned against exactly this scale.
//!
//! The high-pass filter is a scaled first difference: output sample `i` is
//! `alpha * (raw[i] - raw[i - 1])`. The difference is computed here, over
//! integers; scaling by `alpha`, which is not a rational number, is left to
//! the caller.

use vstd::prelude::*;

verus! {

/// The number of samples in a frame that the system runs with.
pub const DEFAULT_FRAME_LENGTH: usize = 1024;

/// The samples of a frame of `length` samples filled from `bytes`: byte `i`
/// becomes sample `i` by value, bytes beyond the frame are dropped, and a
/// frame that the bytes do not fill ends in zeros.
pub open spec fn promoted(bytes: Seq<u8>, length: nat) -> Seq<i16> {
    Seq::new(
        length,
        |i: int|
            if i < bytes.len() {
                bytes[i] as i16
            } else {
                0i16
            },
    )
}

/// The raw sample that precedes sample `i` in the filter's history: the
/// sample before it, and for the first sample the sample itself.
pub open spec fn previous_raw(samples: Seq<i16>, i: int) -> int {
    if i == 0 {
        samples[0] as int
    } else {
        samples[i - 1] as int
    }
}

/// The first difference of `samples` against their raw immediate history.
pub open spec fn differences(samples: Seq<i16>) -> Seq<i32> {
    Seq::new(samples.len(), |i: int| (samples[i] - previous_raw(samples, i)) as i32)
}

/// An ordered sequence of signed 16-bit samples.
#[derive(Clone, Debug, PartialEq, Eq)]
pub struct SampleFrame {
    /// The samples, oldest first.
    pub samples: Vec<i16>,
}

impl View for SampleFrame {
    type V = Seq<i16>;

    open spec fn view(&self) -> Seq<i16> {
        self.samples@
    }
}

impl SampleFrame {
    /// A frame of `length` samples filled from the bytes read off the link.
    pub fn from_bytes(bytes: &Vec<u8>, length: usize) -> (frame: SampleFrame)
        ensures
            frame@ == promoted(bytes@, length as nat),
    {
        let mut samples: Vec<i16> = Vec::new();
        let mut i: usize = 0;
        while i < length
            invariant
                i <= length,
                samples@ =~= promoted(bytes@, i as nat),
            decreases length - i,
        {
            let sample: i16 = if i < bytes.len() {
                bytes[i] as i16
            } else {
                0
            };
            samples.push(sample);
            i += 1;
        }
        SampleFrame { samples }
    }

    /// The number of samples in the frame.
    pub fn len(&self) -> (n: usize)
        ensures
            n == self@.len(),
    {
        self.samples.len()
    }

    /// The first difference of the frame: for each sample, how far it lies
    /// from the raw sample before it. The first entry is zero, and no state
    /// is carried in from another frame.
    pub fn first_difference(&self) -> (diffs: Vec<i32>)
        ensures
            diffs@ == differences(self@),
    {
        let mut diffs: Vec<i32> = Vec::new();
        let n = self.samples.len();
        let mut i: usize = 0;
        while i < n
            invariant
                n == self.samples@.len(),
                i <= n,
                diffs@ =~= differences(self@).take(i as int),
            decreases n - i,
        {
            let previous: i32 = if i == 0 {
                self.samples[0] as i32
            } else {
                self.samples[i - 1] as i32
            };
            let current: i32 = self.samples[i] as i32;
            diffs.push(current - previous);
            i += 1;
        }
        diffs
    }
}

/// Every sample of a frame made from bytes lies in 0..=255: a byte is taken
/// by value, without sign extension.
pub proof fn lemma_promoted_range(bytes: Seq<u8>, length: nat, i: int)
    requires
        0 <= i < length,
    ensures
        0 <= promoted(bytes, length)[i] <= 255,
        i < bytes.len() ==> promoted(bytes, length)[i] == bytes[i],
{
}

/// The difference stage rejects a constant signal: every entry is zero, so
/// the filter's output is zero whatever its scale.
pub proof fn lemma_constant_input_is_rejected(samples: Seq<i16>)
    requires
        forall|i: int, j: int|
            0 <= i < samples.len() && 0 <= j < samples.len() ==> samples[i] == samples[j],
    ensures
        forall|i: int| 0 <= i < samples.len() ==> differences(samples)[i] == 0,
{
}

/// The first entry of the difference is zero for every frame: the filter
/// starts from the frame's own first sample.
pub proof fn lemma_first_difference_starts_at_zero(samples: Seq<i16>)
    requires
        samples.len() > 0,
    ensures
        differences(samples)[0] == 0,
{
}

/// From the first sample on, each entry is the step from the raw sample
/// before it, never from a filtered value.
pub proof fn lemma_difference_is_raw_step(samples: Seq<i16>, i: int)
    requires
        0 < i < samples.len(),
    ensures
        differences(samples)[i] == samples[i] - samples[i - 1],
{
}

/// Two frames with the same samples have the same difference: the stage
/// reads nothing but the frame it is given.
pub proof fn lemma_same_samples_same_difference(a: SampleFrame, b: SampleFrame)
    requires
        a@ == b@,
    ensures
        differences(a@) == differences(b@),
{
}

} // verus!
