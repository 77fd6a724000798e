//! The result marshaler: turns what the analysis produced into the fixed
//! records handed across the boundary. A missing reading, or one that carries
//! an infinity or a NaN, becomes the operation's all-zero sentinel record.

use vstd::prelude::*;
use crate::bits::{
    clamp_unit, is_finite, is_finite_value, magnitude_ok, unit_clamped, unit_interval, ZERO_BITS,
};
use crate::gate::SpectrumRequest;

verus! {

/// Pitch estimate: frequency in Hz (zero when unvoiced), confidence in `[0, 1]`.
#[derive(Debug, Clone, Copy, PartialEq, Eq, Structural)]
pub struct PitchResult {
    pub frequency: u32,
    pub confidence: u32,
    pub is_voiced: bool,
}

/// First three formants in Hz and their bandwidths (always zero: bandwidths
/// are not estimated).
#[derive(Debug, Clone, Copy, PartialEq, Eq, Structural)]
pub struct FormantsResult {
    pub f1: u32,
    pub f2: u32,
    pub f3: u32,
    pub bw1: u32,
    pub bw2: u32,
    pub bw3: u32,
}

/// Spectral shape: centroid and 95% rolloff in Hz, tilt as a slope.
#[derive(Debug, Clone, Copy, PartialEq, Eq, Structural)]
pub struct SpectrumResult {
    pub centroid: u32,
    pub rolloff: u32,
    pub tilt: u32,
}

/// Harmonics-to-noise ratio in dB, with the fundamental it was measured at.
#[derive(Debug, Clone, Copy, PartialEq, Eq, Structural)]
pub struct HNRResult {
    pub hnr: u32,
    pub f0: u32,
    pub is_voiced: bool,
}

/// First-minus-second harmonic amplitude, both amplitudes in dB, and the
/// fundamental used.
#[derive(Debug, Clone, Copy, PartialEq, Eq, Structural)]
pub struct H1H2Result {
    pub h1h2: u32,
    pub h1_amplitude_db: u32,
    pub h2_amplitude_db: u32,
    pub f0: u32,
}

pub open spec fn pitch_sentinel() -> PitchResult {
    PitchResult { frequency: ZERO_BITS, confidence: ZERO_BITS, is_voiced: false }
}

pub open spec fn formants_sentinel() -> FormantsResult {
    FormantsResult { f1: 0, f2: 0, f3: 0, bw1: 0, bw2: 0, bw3: 0 }
}

pub open spec fn shape_sentinel() -> SpectrumResult {
    SpectrumResult { centroid: 0, rolloff: 0, tilt: 0 }
}

pub open spec fn hnr_sentinel() -> HNRResult {
    HNRResult { hnr: 0, f0: 0, is_voiced: false }
}

pub open spec fn h1h2_sentinel() -> H1H2Result {
    H1H2Result { h1h2: 0, h1_amplitude_db: 0, h2_amplitude_db: 0, f0: 0 }
}

impl PitchResult {
    /// The record returned for any failure.
    pub fn sentinel() -> (r: Self)
        ensures
            r == pitch_sentinel(),
    {
        PitchResult { frequency: ZERO_BITS, confidence: ZERO_BITS, is_voiced: false }
    }
}

impl FormantsResult {
    /// The record returned for any failure.
    pub fn sentinel() -> (r: Self)
        ensures
            r == formants_sentinel(),
    {
        FormantsResult { f1: 0, f2: 0, f3: 0, bw1: 0, bw2: 0, bw3: 0 }
    }
}

impl SpectrumResult {
    /// The record returned for any failure.
    pub fn sentinel() -> (r: Self)
        ensures
            r == shape_sentinel(),
    {
        SpectrumResult { centroid: 0, rolloff: 0, tilt: 0 }
    }
}

impl HNRResult {
    /// The record returned for any failure.
    pub fn sentinel() -> (r: Self)
        ensures
            r == hnr_sentinel(),
    {
        HNRResult { hnr: 0, f0: 0, is_voiced: false }
    }
}

impl H1H2Result {
    /// The record returned for any failure.
    pub fn sentinel() -> (r: Self)
        ensures
            r == h1h2_sentinel(),
    {
        H1H2Result { h1h2: 0, h1_amplitude_db: 0, h2_amplitude_db: 0, f0: 0 }
    }
}

/// The pitch record for a reading: frequency kept only when voiced,
/// confidence clamped to `[0, 1]`.
pub open spec fn pitch_record(reading: Option<PitchResult>) -> PitchResult {
    match reading {
        Some(p) => if is_finite_value(p.frequency) && is_finite_value(p.confidence) {
            PitchResult {
                frequency: if p.is_voiced {
                    p.frequency
                } else {
                    ZERO_BITS
                },
                confidence: unit_clamped(p.confidence),
                is_voiced: p.is_voiced,
            }
        } else {
            pitch_sentinel()
        },
        None => pitch_sentinel(),
    }
}

pub open spec fn formants_record(reading: Option<(u32, u32, u32)>) -> FormantsResult {
    match reading {
        Some((f1, f2, f3)) => if is_finite_value(f1) && is_finite_value(f2) && is_finite_value(
            f3,
        ) {
            FormantsResult { f1, f2, f3, bw1: 0, bw2: 0, bw3: 0 }
        } else {
            formants_sentinel()
        },
        None => formants_sentinel(),
    }
}

pub open spec fn shape_record(reading: Option<SpectrumResult>) -> SpectrumResult {
    match reading {
        Some(s) => if is_finite_value(s.centroid) && is_finite_value(s.rolloff) && is_finite_value(
            s.tilt,
        ) {
            s
        } else {
            shape_sentinel()
        },
        None => shape_sentinel(),
    }
}

pub open spec fn hnr_record(reading: Option<HNRResult>) -> HNRResult {
    match reading {
        Some(h) => if is_finite_value(h.hnr) && is_finite_value(h.f0) {
            h
        } else {
            hnr_sentinel()
        },
        None => hnr_sentinel(),
    }
}

pub open spec fn h1h2_record(reading: Option<H1H2Result>) -> H1H2Result {
    match reading {
        Some(h) => if is_finite_value(h.h1h2) && is_finite_value(h.h1_amplitude_db)
            && is_finite_value(h.h2_amplitude_db) && is_finite_value(h.f0) {
            h
        } else {
            h1h2_sentinel()
        },
        None => h1h2_sentinel(),
    }
}

/// Marshals a pitch reading (`None`: the analysis failed).
pub fn marshal_pitch(reading: Option<PitchResult>) -> (r: PitchResult)
    ensures
        r == pitch_record(reading),
        unit_interval(r.confidence),
        !r.is_voiced ==> r.frequency == ZERO_BITS,
{
    match reading {
        Some(p) => if is_finite(p.frequency) && is_finite(p.confidence) {
            PitchResult {
                frequency: if p.is_voiced {
                    p.frequency
                } else {
                    ZERO_BITS
                },
                confidence: clamp_unit(p.confidence),
                is_voiced: p.is_voiced,
            }
        } else {
            PitchResult::sentinel()
        },
        None => PitchResult::sentinel(),
    }
}

/// Marshals the three formant frequencies of a reading; bandwidths are zero.
pub fn marshal_formants(reading: Option<(u32, u32, u32)>) -> (r: FormantsResult)
    ensures
        r == formants_record(reading),
        r.bw1 == 0 && r.bw2 == 0 && r.bw3 == 0,
{
    match reading {
        Some((f1, f2, f3)) => if is_finite(f1) && is_finite(f2) && is_finite(f3) {
            FormantsResult { f1, f2, f3, bw1: 0, bw2: 0, bw3: 0 }
        } else {
            FormantsResult::sentinel()
        },
        None => FormantsResult::sentinel(),
    }
}

/// Marshals a spectral-shape reading.
pub fn marshal_shape(reading: Option<SpectrumResult>) -> (r: SpectrumResult)
    ensures
        r == shape_record(reading),
{
    match reading {
        Some(s) => if is_finite(s.centroid) && is_finite(s.rolloff) && is_finite(s.tilt) {
            s
        } else {
            SpectrumResult::sentinel()
        },
        None => SpectrumResult::sentinel(),
    }
}

/// Marshals a harmonics-to-noise reading.
pub fn marshal_hnr(reading: Option<HNRResult>) -> (r: HNRResult)
    ensures
        r == hnr_record(reading),
{
    match reading {
        Some(h) => if is_finite(h.hnr) && is_finite(h.f0) {
            h
        } else {
            HNRResult::sentinel()
        },
        None => HNRResult::sentinel(),
    }
}

/// Marshals an H1-H2 reading.
pub fn marshal_h1h2(reading: Option<H1H2Result>) -> (r: H1H2Result)
    ensures
        r == h1h2_record(reading),
{
    match reading {
        Some(h) => if is_finite(h.h1h2) && is_finite(h.h1_amplitude_db) && is_finite(
            h.h2_amplitude_db,
        ) && is_finite(h.f0) {
            h
        } else {
            H1H2Result::sentinel()
        },
        None => H1H2Result::sentinel(),
    }
}

/// Number of magnitudes in the spectrum of a request: `fft_size / 2 + 1`.
pub open spec fn spectrum_len_of(req: SpectrumRequest) -> nat {
    req.fft_size as nat / 2 + 1
}

/// A magnitude sequence that may be handed out for `req`.
pub open spec fn spectrum_ok(req: SpectrumRequest, m: Seq<u32>) -> bool {
    &&& m.len() == spectrum_len_of(req)
    &&& forall|i: int| 0 <= i < m.len() ==> magnitude_ok(#[trigger] m[i])
}

/// Number of magnitudes in the spectrum of a request.
pub fn spectrum_len(req: &SpectrumRequest) -> (r: usize)
    ensures
        r == spectrum_len_of(*req),
{
    req.fft_size / 2 + 1
}

/// Whether every element is a finite, non-negative magnitude.
pub fn all_magnitudes_ok(m: &Vec<u32>) -> (r: bool)
    ensures
        r == (forall|i: int| 0 <= i < m@.len() ==> magnitude_ok(#[trigger] m@[i])),
{
    let mut i: usize = 0;
    while i < m.len()
        invariant
            i <= m@.len(),
            forall|j: int| 0 <= j < i ==> magnitude_ok(#[trigger] m@[j]),
        decreases m@.len() - i,
    {
        if m[i] >= crate::bits::INFINITY_BITS {
            return false;
        }
        i = i + 1;
    }
    true
}

/// Marshals a magnitude spectrum: handed out only when it has `fft_size / 2 + 1`
/// finite, non-negative values; `None` otherwise.
pub fn marshal_spectrum(req: &SpectrumRequest, reading: Option<Vec<u32>>) -> (r: Option<Vec<u32>>)
    ensures
        r == (match reading {
            Some(m) => if spectrum_ok(*req, m@) {
                Some(m)
            } else {
                None
            },
            None => None,
        }),
{
    match reading {
        Some(m) => if m.len() == spectrum_len(req) && all_magnitudes_ok(&m) {
            Some(m)
        } else {
            None
        },
        None => None,
    }
}

} // verus!
