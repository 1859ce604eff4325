//! Classifies one frame's spectrum: is there energy of the right strength
//! in the target frequency band?
//!
//! The spectrum comes in as one power level per frequency bin, in ascending
//! bin order. A level is an ordinal: the caller maps each measured power,
//! and both bounds of the power window, to a level by one strictly
//! increasing map, so that comparing levels is comparing powers.
//! Frequencies are whole hertz and are compared exactly: bin `i` of `n`
//! has the centre frequency `i * sample_rate / n`.

use vstd::prelude::*;

verus! {

/// The sample rate that the system runs with, in hertz.
pub const DEFAULT_SAMPLE_RATE_HZ: u32 = 8000;

/// The lower edge of the band that the system listens in, in hertz.
pub const DEFAULT_BAND_LOW_HZ: u32 = 1640;

/// The upper edge of the band that the system listens in, in hertz.
pub const DEFAULT_BAND_HIGH_HZ: u32 = 1720;

/// A frequency band, both edges included.
#[derive(Clone, Copy, Debug, PartialEq, Eq, Structural)]
pub struct ToneBand {
    pub low_hz: u32,
    pub high_hz: u32,
}

/// A window of power levels, both edges excluded.
#[derive(Clone, Copy, Debug, PartialEq, Eq, Structural)]
pub struct PowerWindow {
    pub low: u32,
    pub high: u32,
}

/// Whether the centre frequency of bin `i` of `bins` lies in `band`.
pub open spec fn bin_in_band(i: int, bins: int, sample_rate_hz: u32, band: ToneBand) -> bool {
    band.low_hz * bins <= i * sample_rate_hz <= band.high_hz * bins
}

/// Whether `level` lies strictly inside `window`.
pub open spec fn level_in_window(level: u32, window: PowerWindow) -> bool {
    window.low < level < window.high
}

/// Whether bin `i` of the spectrum shows the tone.
pub open spec fn bin_qualifies(
    levels: Seq<u32>,
    i: int,
    sample_rate_hz: u32,
    band: ToneBand,
    window: PowerWindow,
) -> bool {
    &&& 0 <= i < levels.len()
    &&& bin_in_band(i, levels.len() as int, sample_rate_hz, band)
    &&& level_in_window(levels[i], window)
}

/// Whether any bin of the spectrum shows the tone.
pub open spec fn tone_present(
    levels: Seq<u32>,
    sample_rate_hz: u32,
    band: ToneBand,
    window: PowerWindow,
) -> bool {
    exists|i: int| bin_qualifies(levels, i, sample_rate_hz, band, window)
}

/// Whether the centre frequency of bin `i` of `bins` lies in `band`.
pub fn in_band(i: usize, bins: usize, sample_rate_hz: u32, band: ToneBand) -> (inside: bool)
    ensures
        inside == bin_in_band(i as int, bins as int, sample_rate_hz, band),
{
    let index = i as u128;
    let count = bins as u128;
    let rate = sample_rate_hz as u128;
    let low = band.low_hz as u128;
    let high = band.high_hz as u128;
    assert(index * rate <= 0xffff_ffff_ffff_ffff * 0xffff_ffff) by (nonlinear_arith)
        requires
            0 <= index <= 0xffff_ffff_ffff_ffff,
            0 <= rate <= 0xffff_ffff,
    ;
    assert(low * count <= 0xffff_ffff * 0xffff_ffff_ffff_ffff) by (nonlinear_arith)
        requires
            0 <= count <= 0xffff_ffff_ffff_ffff,
            0 <= low <= 0xffff_ffff,
    ;
    assert(high * count <= 0xffff_ffff * 0xffff_ffff_ffff_ffff) by (nonlinear_arith)
        requires
            0 <= count <= 0xffff_ffff_ffff_ffff,
            0 <= high <= 0xffff_ffff,
    ;
    let centre = index * rate;
    low * count <= centre && centre <= high * count
}

/// The first bin, in ascending order, whose frequency lies in `band` and
/// whose level lies strictly inside `window`; `None` where there is none.
pub fn first_tone_bin(
    levels: &Vec<u32>,
    sample_rate_hz: u32,
    band: ToneBand,
    window: PowerWindow,
) -> (found: Option<usize>)
    ensures
        match found {
            Some(i) => {
                &&& bin_qualifies(levels@, i as int, sample_rate_hz, band, window)
                &&& forall|j: int|
                    0 <= j < i ==> !bin_qualifies(levels@, j, sample_rate_hz, band, window)
            },
            None => !tone_present(levels@, sample_rate_hz, band, window),
        },
{
    let bins = levels.len();
    let mut i: usize = 0;
    while i < bins
        invariant
            bins == levels@.len(),
            i <= bins,
            forall|j: int| 0 <= j < i ==> !bin_qualifies(levels@, j, sample_rate_hz, band, window),
        decreases bins - i,
    {
        if in_band(i, bins, sample_rate_hz, band) {
            let level = levels[i];
            if window.low < level && level < window.high {
                return Some(i);
            }
        }
        i += 1;
    }
    None
}

/// Whether the spectrum shows the tone: some bin in `band` has a level
/// strictly inside `window`.
pub fn detect(levels: &Vec<u32>, sample_rate_hz: u32, band: ToneBand, window: PowerWindow) -> (tone:
    bool)
    ensures
        tone == tone_present(levels@, sample_rate_hz, band, window),
{
    first_tone_bin(levels, sample_rate_hz, band, window).is_some()
}

/// A spectrum in which no level exceeds the window's lower edge shows no
/// tone, whatever the band: silence is never a detection.
pub proof fn lemma_silence_is_not_a_tone(
    levels: Seq<u32>,
    sample_rate_hz: u32,
    band: ToneBand,
    window: PowerWindow,
)
    requires
        forall|i: int| 0 <= i < levels.len() ==> levels[i] <= window.low,
    ensures
        !tone_present(levels, sample_rate_hz, band, window),
{
}

/// A spectrum in which no level stays under the window's upper edge shows
/// no tone either: a signal that is too strong is not the tone.
pub proof fn lemma_overload_is_not_a_tone(
    levels: Seq<u32>,
    sample_rate_hz: u32,
    band: ToneBand,
    window: PowerWindow,
)
    requires
        forall|i: int| 0 <= i < levels.len() ==> levels[i] >= window.high,
    ensures
        !tone_present(levels, sample_rate_hz, band, window),
{
}

/// One qualifying bin is enough, whatever the other bins hold: detection is
/// a presence test, not a peak search.
pub proof fn lemma_one_bin_suffices(
    levels: Seq<u32>,
    i: int,
    sample_rate_hz: u32,
    band: ToneBand,
    window: PowerWindow,
)
    requires
        bin_qualifies(levels, i, sample_rate_hz, band, window),
    ensures
        tone_present(levels, sample_rate_hz, band, window),
{
}

/// Two spectra with the same levels are classified alike, under the same
/// band and window: detection reads nothing but what it is given.
pub proof fn lemma_same_levels_same_answer(
    a: Vec<u32>,
    b: Vec<u32>,
    sample_rate_hz: u32,
    band: ToneBand,
    window: PowerWindow,
)
    requires
        a@ == b@,
    ensures
        tone_present(a@, sample_rate_hz, band, window) == tone_present(
            b@,
            sample_rate_hz,
            band,
            window,
        ),
{
}

} // verus!
