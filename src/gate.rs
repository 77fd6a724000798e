//! The validation gate: every request is checked here, in a fixed order, before
//! any analysis runs. The first failed check names the rejection.

use vstd::prelude::*;
use crate::bits::{is_positive_value, positive_lt, INFINITY_BITS};

verus! {

/// Lowest sample rate, in Hz, accepted by the voice operations.
pub const MIN_VOICE_RATE: i32 = 8000;

/// Highest sample rate, in Hz, accepted by the voice operations.
pub const MAX_VOICE_RATE: i32 = 48000;

/// Smallest transform size accepted for a magnitude spectrum.
pub const MIN_FFT_SIZE: i32 = 256;

/// Largest transform size accepted for a magnitude spectrum.
pub const MAX_FFT_SIZE: i32 = 8192;

/// Smallest linear-prediction order.
pub const MIN_LPC_ORDER: i32 = 8;

/// Largest linear-prediction order.
pub const MAX_LPC_ORDER: i32 = 24;

/// Sample rate, in Hz, used by entry points whose host declaration carries none.
pub const DEFAULT_HOST_SAMPLE_RATE: i32 = 44100;

/// Lower end of the pitch search band, 80 Hz, as a single-precision bit pattern.
pub const PITCH_SEARCH_MIN_BITS: u32 = 0x42A0_0000;

/// Upper end of the pitch search band, 400 Hz, as a single-precision bit pattern.
pub const PITCH_SEARCH_MAX_BITS: u32 = 0x43C8_0000;

/// Why a request was turned away.
#[derive(Debug, Clone, Copy, PartialEq, Eq, Structural)]
pub enum Rejection {
    /// No sample buffer was given.
    MissingBuffer,
    /// The declared sample count is zero or negative.
    NonPositiveLength,
    /// The sample rate is outside the operation's band.
    SampleRateOutOfRange,
    /// The transform size is not a power of two.
    FftSizeNotPowerOfTwo,
    /// The transform size is a power of two outside `[256, 8192]`.
    FftSizeOutOfRange,
    /// The linear-prediction order lies outside `[8, 24]`.
    LpcOrderOutOfRange,
    /// Fewer samples than twice the linear-prediction order.
    BufferTooShort,
    /// The minimum frequency is not positive, or the maximum does not exceed it.
    InvalidFrequencyRange,
}

/// The sample-rate band of an operation.
#[derive(Debug, Clone, Copy, PartialEq, Eq, Structural)]
pub enum RateBand {
    /// Any rate above zero (raw spectrum).
    AnyPositive,
    /// `[8000, 48000]` Hz (pitch, formants, spectral shape, HNR, H1-H2).
    Voice,
}

/// A sample buffer that passed the common checks.
#[derive(Debug, Clone, Copy, PartialEq, Eq, Structural)]
pub struct Signal {
    pub sample_count: usize,
    pub sample_rate: u32,
}

/// An accepted magnitude-spectrum request.
#[derive(Debug, Clone, Copy, PartialEq, Eq, Structural)]
pub struct SpectrumRequest {
    pub signal: Signal,
    pub fft_size: usize,
}

/// An accepted spectral-shape request: the transform spans the whole buffer.
#[derive(Debug, Clone, Copy, PartialEq, Eq, Structural)]
pub struct ShapeRequest {
    pub signal: Signal,
    pub fft_size: usize,
}

/// An accepted pitch request, with the search band handed to the analysis.
#[derive(Debug, Clone, Copy, PartialEq, Eq, Structural)]
pub struct PitchRequest {
    pub signal: Signal,
    pub min_freq: u32,
    pub max_freq: u32,
}

/// An accepted formant request, with the order actually used.
#[derive(Debug, Clone, Copy, PartialEq, Eq, Structural)]
pub struct FormantRequest {
    pub signal: Signal,
    pub lpc_order: usize,
}

/// An accepted harmonics-to-noise request.
#[derive(Debug, Clone, Copy, PartialEq, Eq, Structural)]
pub struct HnrRequest {
    pub signal: Signal,
    pub min_freq: u32,
    pub max_freq: u32,
}

/// An accepted H1-H2 request; `f0` is `None` when it is to be detected.
#[derive(Debug, Clone, Copy, PartialEq, Eq, Structural)]
pub struct H1H2Request {
    pub signal: Signal,
    pub f0: Option<u32>,
}

pub open spec fn rate_in_band(band: RateBand, rate: i32) -> bool {
    match band {
        RateBand::AnyPositive => rate > 0,
        RateBand::Voice => MIN_VOICE_RATE <= rate <= MAX_VOICE_RATE,
    }
}

/// Buffer present, length positive, rate in band: checked in that order.
pub open spec fn common_gate(has_buffer: bool, length: i32, rate: i32, band: RateBand) -> Result<
    Signal,
    Rejection,
> {
    if !has_buffer {
        Err(Rejection::MissingBuffer)
    } else if length <= 0 {
        Err(Rejection::NonPositiveLength)
    } else if !rate_in_band(band, rate) {
        Err(Rejection::SampleRateOutOfRange)
    } else {
        Ok(Signal { sample_count: length as usize, sample_rate: rate as u32 })
    }
}

pub open spec fn is_power_of_two(n: nat) -> bool
    decreases n,
{
    if n == 0 {
        false
    } else if n == 1 {
        true
    } else {
        n % 2 == 0 && is_power_of_two(n / 2)
    }
}

pub open spec fn spectrum_gate(has_buffer: bool, length: i32, rate: i32, fft_size: i32) -> Result<
    SpectrumRequest,
    Rejection,
> {
    match common_gate(has_buffer, length, rate, RateBand::AnyPositive) {
        Err(e) => Err(e),
        Ok(signal) => if fft_size <= 0 || !is_power_of_two(fft_size as nat) {
            Err(Rejection::FftSizeNotPowerOfTwo)
        } else if fft_size < MIN_FFT_SIZE || fft_size > MAX_FFT_SIZE {
            Err(Rejection::FftSizeOutOfRange)
        } else {
            Ok(SpectrumRequest { signal, fft_size: fft_size as usize })
        },
    }
}

pub open spec fn clamp_int(x: int, lo: int, hi: int) -> int {
    if x < lo {
        lo
    } else if x > hi {
        hi
    } else {
        x
    }
}

/// `(rate / 1000) + 2`, clamped to `[8, 24]`.
pub open spec fn default_lpc_order_of(rate: nat) -> int {
    clamp_int(rate as int / 1000 + 2, MIN_LPC_ORDER as int, MAX_LPC_ORDER as int)
}

/// Zero asks for the default order; any other value is the order itself.
pub open spec fn chosen_lpc_order(rate: nat, lpc_order: i32) -> int {
    if lpc_order == 0 {
        default_lpc_order_of(rate)
    } else {
        lpc_order as int
    }
}

pub open spec fn formant_gate(has_buffer: bool, length: i32, rate: i32, lpc_order: i32) -> Result<
    FormantRequest,
    Rejection,
> {
    match common_gate(has_buffer, length, rate, RateBand::Voice) {
        Err(e) => Err(e),
        Ok(signal) => {
            let order = chosen_lpc_order(rate as nat, lpc_order);
            if order < MIN_LPC_ORDER || order > MAX_LPC_ORDER {
                Err(Rejection::LpcOrderOutOfRange)
            } else if (length as int) < 2 * order {
                Err(Rejection::BufferTooShort)
            } else {
                Ok(FormantRequest { signal, lpc_order: order as usize })
            }
        },
    }
}

pub open spec fn hnr_gate(
    has_buffer: bool,
    length: i32,
    rate: i32,
    min_freq: u32,
    max_freq: u32,
) -> Result<HnrRequest, Rejection> {
    match common_gate(has_buffer, length, rate, RateBand::Voice) {
        Err(e) => Err(e),
        Ok(signal) => if is_positive_value(min_freq) && positive_lt(min_freq, max_freq) {
            Ok(HnrRequest { signal, min_freq, max_freq })
        } else {
            Err(Rejection::InvalidFrequencyRange)
        },
    }
}

/// Whether `rate` is in `band`.
pub fn check_rate(band: RateBand, rate: i32) -> (r: bool)
    ensures
        r == rate_in_band(band, rate),
{
    match band {
        RateBand::AnyPositive => rate > 0,
        RateBand::Voice => MIN_VOICE_RATE <= rate && rate <= MAX_VOICE_RATE,
    }
}

/// The checks shared by every operation: buffer, length, sample rate.
pub fn check_signal(has_buffer: bool, length: i32, sample_rate: i32, band: RateBand) -> (r: Result<
    Signal,
    Rejection,
>)
    ensures
        r == common_gate(has_buffer, length, sample_rate, band),
{
    if !has_buffer {
        Err(Rejection::MissingBuffer)
    } else if length <= 0 {
        Err(Rejection::NonPositiveLength)
    } else if !check_rate(band, sample_rate) {
        Err(Rejection::SampleRateOutOfRange)
    } else {
        Ok(Signal { sample_count: length as usize, sample_rate: sample_rate as u32 })
    }
}

/// Whether `n` is a power of two.
pub fn power_of_two(n: u32) -> (r: bool)
    ensures
        r == is_power_of_two(n as nat),
{
    if n == 0 {
        return false;
    }
    let mut m: u32 = n;
    while m % 2 == 0
        invariant
            m > 0,
            is_power_of_two(n as nat) == is_power_of_two(m as nat),
        decreases m,
    {
        m = m / 2;
    }
    m == 1
}

/// Gate of the magnitude-spectrum operation.
pub fn validate_spectrum(has_buffer: bool, length: i32, sample_rate: i32, fft_size: i32) -> (r:
    Result<SpectrumRequest, Rejection>)
    ensures
        r == spectrum_gate(has_buffer, length, sample_rate, fft_size),
{
    let signal = match check_signal(has_buffer, length, sample_rate, RateBand::AnyPositive) {
        Err(e) => return Err(e),
        Ok(s) => s,
    };
    if fft_size <= 0 || !power_of_two(fft_size as u32) {
        Err(Rejection::FftSizeNotPowerOfTwo)
    } else if fft_size < MIN_FFT_SIZE || fft_size > MAX_FFT_SIZE {
        Err(Rejection::FftSizeOutOfRange)
    } else {
        Ok(SpectrumRequest { signal, fft_size: fft_size as usize })
    }
}

/// Gate of the pitch operation; the search band is 80 to 400 Hz.
pub fn validate_pitch(has_buffer: bool, length: i32, sample_rate: i32) -> (r: Result<
    PitchRequest,
    Rejection,
>)
    ensures
        r == (match common_gate(has_buffer, length, sample_rate, RateBand::Voice) {
            Err(e) => Err(e),
            Ok(signal) => Ok(
                PitchRequest {
                    signal,
                    min_freq: PITCH_SEARCH_MIN_BITS,
                    max_freq: PITCH_SEARCH_MAX_BITS,
                },
            ),
        }),
{
    match check_signal(has_buffer, length, sample_rate, RateBand::Voice) {
        Err(e) => Err(e),
        Ok(signal) => Ok(
            PitchRequest { signal, min_freq: PITCH_SEARCH_MIN_BITS, max_freq: PITCH_SEARCH_MAX_BITS },
        ),
    }
}

/// Gate of the spectral-shape operation. The intermediate transform spans the
/// whole buffer, so its size is the sample count.
pub fn validate_shape(has_buffer: bool, length: i32, sample_rate: i32) -> (r: Result<
    ShapeRequest,
    Rejection,
>)
    ensures
        r == (match common_gate(has_buffer, length, sample_rate, RateBand::Voice) {
            Err(e) => Err(e),
            Ok(signal) => Ok(ShapeRequest { signal, fft_size: signal.sample_count }),
        }),
{
    match check_signal(has_buffer, length, sample_rate, RateBand::Voice) {
        Err(e) => Err(e),
        Ok(signal) => Ok(ShapeRequest { signal, fft_size: signal.sample_count }),
    }
}

/// The default linear-prediction order for a sample rate:
/// `(sample_rate / 1000) + 2`, clamped to `[8, 24]`.
pub fn default_lpc_order(sample_rate: u32) -> (r: u32)
    ensures
        r as int == default_lpc_order_of(sample_rate as nat),
        MIN_LPC_ORDER <= r <= MAX_LPC_ORDER,
{
    let calculated: u32 = sample_rate / 1000 + 2;
    if calculated < MIN_LPC_ORDER as u32 {
        MIN_LPC_ORDER as u32
    } else if calculated > MAX_LPC_ORDER as u32 {
        MAX_LPC_ORDER as u32
    } else {
        calculated
    }
}

/// Gate of the formant operation. An order of zero asks for the default.
pub fn validate_formants(has_buffer: bool, length: i32, sample_rate: i32, lpc_order: i32) -> (r:
    Result<FormantRequest, Rejection>)
    ensures
        r == formant_gate(has_buffer, length, sample_rate, lpc_order),
{
    let signal = match check_signal(has_buffer, length, sample_rate, RateBand::Voice) {
        Err(e) => return Err(e),
        Ok(s) => s,
    };
    let order: i32 = if lpc_order == 0 {
        default_lpc_order(signal.sample_rate) as i32
    } else {
        lpc_order
    };
    if order < MIN_LPC_ORDER || order > MAX_LPC_ORDER {
        Err(Rejection::LpcOrderOutOfRange)
    } else if length < 2 * order {
        Err(Rejection::BufferTooShort)
    } else {
        Ok(FormantRequest { signal, lpc_order: order as usize })
    }
}

/// Gate of the harmonics-to-noise operation: the search band must be
/// `0 < min_freq < max_freq`.
pub fn validate_hnr(
    has_buffer: bool,
    length: i32,
    sample_rate: i32,
    min_freq: u32,
    max_freq: u32,
) -> (r: Result<HnrRequest, Rejection>)
    ensures
        r == hnr_gate(has_buffer, length, sample_rate, min_freq, max_freq),
{
    let signal = match check_signal(has_buffer, length, sample_rate, RateBand::Voice) {
        Err(e) => return Err(e),
        Ok(s) => s,
    };
    if 0 < min_freq && min_freq < max_freq && max_freq <= INFINITY_BITS {
        Ok(HnrRequest { signal, min_freq, max_freq })
    } else {
        Err(Rejection::InvalidFrequencyRange)
    }
}

/// A fundamental-frequency hint: a value above zero is used as given, anything
/// else (zero, negative, NaN) asks for detection.
pub fn f0_hint(f0: u32) -> (r: Option<u32>)
    ensures
        r == (if is_positive_value(f0) {
            Some(f0)
        } else {
            None::<u32>
        }),
{
    if 0 < f0 && f0 <= INFINITY_BITS {
        Some(f0)
    } else {
        None
    }
}

/// Gate of the H1-H2 operation.
pub fn validate_h1h2(has_buffer: bool, length: i32, sample_rate: i32, f0: u32) -> (r: Result<
    H1H2Request,
    Rejection,
>)
    ensures
        r == (match common_gate(has_buffer, length, sample_rate, RateBand::Voice) {
            Err(e) => Err(e),
            Ok(signal) => Ok(
                H1H2Request {
                    signal,
                    f0: if is_positive_value(f0) {
                        Some(f0)
                    } else {
                        None
                    },
                },
            ),
        }),
{
    match check_signal(has_buffer, length, sample_rate, RateBand::Voice) {
        Err(e) => Err(e),
        Ok(signal) => Ok(H1H2Request { signal, f0: f0_hint(f0) }),
    }
}

/// A spectrum request with a missing buffer, a non-positive length, a
/// non-positive sample rate, or a transform size that is not a power of two in
/// `[256, 8192]` is rejected.
pub proof fn lemma_spectrum_rejections(
    has_buffer: bool,
    length: i32,
    sample_rate: i32,
    fft_size: i32,
)
    requires
        !has_buffer || length <= 0 || sample_rate <= 0 || fft_size <= 0 || !is_power_of_two(
            fft_size as nat,
        ) || fft_size < 256 || fft_size > 8192,
    ensures
        spectrum_gate(has_buffer, length, sample_rate, fft_size) is Err,
{
}

/// A formant request with a missing buffer, a non-positive length, a sample
/// rate outside `[8000, 48000]`, an order (after the default for zero) outside
/// `[8, 24]`, or fewer samples than twice that order is rejected.
pub proof fn lemma_formant_rejections(
    has_buffer: bool,
    length: i32,
    sample_rate: i32,
    lpc_order: i32,
)
    requires
        !has_buffer || length <= 0 || sample_rate < 8000 || sample_rate > 48000 || ({
            let order = chosen_lpc_order(sample_rate as nat, lpc_order);
            order < 8 || order > 24 || (length as int) < 2 * order
        }),
    ensures
        formant_gate(has_buffer, length, sample_rate, lpc_order) is Err,
{
}

/// For the voice operations, a missing buffer, a non-positive length or a
/// sample rate outside `[8000, 48000]` is rejected.
pub proof fn lemma_voice_rejections(has_buffer: bool, length: i32, sample_rate: i32)
    requires
        !has_buffer || length <= 0 || sample_rate < 8000 || sample_rate > 48000,
    ensures
        common_gate(has_buffer, length, sample_rate, RateBand::Voice) is Err,
{
}

} // verus!
