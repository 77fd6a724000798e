//! The pitch-track record: three parallel per-frame sequences that are handed
//! out, and later released, as one unit.

use vstd::prelude::*;
use crate::bits::{clamp_unit, is_finite, is_finite_value, unit_clamped, unit_interval};

verus! {

/// A smoothed pitch contour as produced by the analysis: per-frame pitch in Hz
/// (zero when unvoiced), voiced probability, and timestamp in seconds.
#[derive(Debug)]
pub struct TrackReading {
    pub pitch_track: Vec<u32>,
    pub voiced_probabilities: Vec<u32>,
    pub timestamps: Vec<u32>,
}

/// The record handed across the boundary. Either `success` holds and the three
/// sequences have one common, positive length, or it does not and all three
/// are empty.
#[derive(Debug)]
pub struct PitchTrack {
    pub success: bool,
    pub pitch_track: Vec<u32>,
    pub voiced_probabilities: Vec<u32>,
    pub timestamps: Vec<u32>,
}

pub open spec fn all_finite(s: Seq<u32>) -> bool {
    forall|i: int| 0 <= i < s.len() ==> is_finite_value(#[trigger] s[i])
}

/// A reading that can be handed out: three sequences of one positive length,
/// every value finite.
pub open spec fn reading_ok(r: TrackReading) -> bool {
    &&& r.pitch_track@.len() > 0
    &&& r.voiced_probabilities@.len() == r.pitch_track@.len()
    &&& r.timestamps@.len() == r.pitch_track@.len()
    &&& all_finite(r.pitch_track@)
    &&& all_finite(r.voiced_probabilities@)
    &&& all_finite(r.timestamps@)
}

/// Every element clamped to `[0, 1]`.
pub open spec fn clamped_all(s: Seq<u32>) -> Seq<u32> {
    s.map_values(|b: u32| unit_clamped(b))
}

/// `r` is the record marshaled from `reading`.
pub open spec fn marshaled_from(reading: Option<TrackReading>, r: PitchTrack) -> bool {
    match reading {
        Some(x) => if reading_ok(x) {
            &&& r.success
            &&& r.pitch_track@ == x.pitch_track@
            &&& r.voiced_probabilities@ == clamped_all(x.voiced_probabilities@)
            &&& r.timestamps@ == x.timestamps@
        } else {
            r.is_failed()
        },
        None => r.is_failed(),
    }
}

impl PitchTrack {
    pub open spec fn wf(&self) -> bool {
        if self.success {
            &&& self.pitch_track@.len() > 0
            &&& self.voiced_probabilities@.len() == self.pitch_track@.len()
            &&& self.timestamps@.len() == self.pitch_track@.len()
        } else {
            &&& self.pitch_track@.len() == 0
            &&& self.voiced_probabilities@.len() == 0
            &&& self.timestamps@.len() == 0
        }
    }

    pub open spec fn is_failed(&self) -> bool {
        &&& !self.success
        &&& self.pitch_track@.len() == 0
        &&& self.voiced_probabilities@.len() == 0
        &&& self.timestamps@.len() == 0
    }

    /// The record returned for any failure: no frames.
    pub fn failed() -> (r: Self)
        ensures
            r.is_failed(),
            r.wf(),
    {
        PitchTrack {
            success: false,
            pitch_track: Vec::new(),
            voiced_probabilities: Vec::new(),
            timestamps: Vec::new(),
        }
    }

    /// Number of frames (the length of each of the three sequences).
    pub fn len(&self) -> (r: usize)
        requires
            self.wf(),
        ensures
            r == self.pitch_track@.len(),
            r == self.voiced_probabilities@.len(),
            r == self.timestamps@.len(),
            r > 0 <==> self.success,
    {
        self.pitch_track.len()
    }
}

/// Whether every value is finite.
pub fn check_all_finite(s: &Vec<u32>) -> (r: bool)
    ensures
        r == all_finite(s@),
{
    let mut i: usize = 0;
    while i < s.len()
        invariant
            i <= s@.len(),
            forall|j: int| 0 <= j < i ==> is_finite_value(#[trigger] s@[j]),
        decreases s@.len() - i,
    {
        if !is_finite(s[i]) {
            return false;
        }
        i = i + 1;
    }
    true
}

/// The values clamped to `[0, 1]`; every value must be finite.
pub fn clamp_all(s: &Vec<u32>) -> (r: Vec<u32>)
    requires
        all_finite(s@),
    ensures
        r@ == clamped_all(s@),
        forall|i: int| 0 <= i < r@.len() ==> unit_interval(#[trigger] r@[i]),
{
    let mut out: Vec<u32> = Vec::with_capacity(s.len());
    let mut i: usize = 0;
    while i < s.len()
        invariant
            i <= s@.len(),
            all_finite(s@),
            out@ == clamped_all(s@.subrange(0, i as int)),
        decreases s@.len() - i,
    {
        out.push(clamp_unit(s[i]));
        proof {
            assert(s@.subrange(0, i + 1) == s@.subrange(0, i as int).push(s@[i as int]));
        }
        i = i + 1;
    }
    proof {
        assert(s@.subrange(0, s@.len() as int) == s@);
    }
    out
}

/// Marshals a pitch-track reading (`None`: the analysis failed). The record
/// succeeds exactly when the reading is well formed; voiced probabilities are
/// clamped to `[0, 1]`.
pub fn marshal_track(reading: Option<TrackReading>) -> (r: PitchTrack)
    ensures
        r.wf(),
        forall|i: int|
            0 <= i < r.voiced_probabilities@.len() ==> unit_interval(
                #[trigger] r.voiced_probabilities@[i],
            ),
        marshaled_from(reading, r),
{
    match reading {
        Some(x) => {
            let n = x.pitch_track.len();
            if n > 0 && x.voiced_probabilities.len() == n && x.timestamps.len() == n
                && check_all_finite(&x.pitch_track) && check_all_finite(&x.voiced_probabilities)
                && check_all_finite(&x.timestamps) {
                let probs = clamp_all(&x.voiced_probabilities);
                PitchTrack {
                    success: true,
                    pitch_track: x.pitch_track,
                    voiced_probabilities: probs,
                    timestamps: x.timestamps,
                }
            } else {
                PitchTrack::failed()
            }
        },
        None => PitchTrack::failed(),
    }
}

} // verus!
