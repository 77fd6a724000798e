//! Release rules for buffers handed to the host. The host gives back the base
//! of a buffer (or nothing) with the length it was told; these decide how many
//! elements are reclaimed. A missing buffer or a non-positive length is a no-op.

use vstd::prelude::*;
use crate::gate::spectrum_gate;
use crate::marshal::{spectrum_len_of, spectrum_ok};

verus! {

/// Elements to reclaim for a flat buffer given back with `length`.
pub open spec fn release_plan(is_null: bool, length: i32) -> Option<usize> {
    if is_null || length <= 0 {
        None
    } else {
        Some(length as usize)
    }
}

/// Elements to reclaim for one sequence of a pitch track of `length` frames.
pub open spec fn track_release_plan(is_null: bool, length: usize) -> Option<usize> {
    if is_null || length == 0 {
        None
    } else {
        Some(length)
    }
}

/// How many elements to reclaim for a flat buffer (`None`: nothing to do).
pub fn release_count(is_null: bool, length: i32) -> (r: Option<usize>)
    ensures
        r == release_plan(is_null, length),
{
    if is_null || length <= 0 {
        None
    } else {
        Some(length as usize)
    }
}

/// How many elements to reclaim for one sequence of a pitch track.
pub fn track_release_count(is_null: bool, length: usize) -> (r: Option<usize>)
    ensures
        r == track_release_plan(is_null, length),
{
    if is_null || length == 0 {
        None
    } else {
        Some(length)
    }
}

/// A spectrum handed out for an accepted request, given back with the length
/// it was handed out with, is reclaimed whole: that length is positive, fits
/// the host's integer, and the release reclaims exactly that many elements.
pub proof fn lemma_spectrum_round_trip(
    has_buffer: bool,
    length: i32,
    sample_rate: i32,
    fft_size: i32,
    magnitudes: Seq<u32>,
)
    requires
        spectrum_gate(has_buffer, length, sample_rate, fft_size) is Ok,
        spectrum_ok(spectrum_gate(has_buffer, length, sample_rate, fft_size)->Ok_0, magnitudes),
    ensures
        129 <= magnitudes.len() <= 4097,
        release_plan(false, magnitudes.len() as i32) == Some(magnitudes.len() as usize),
{
}

} // verus!
