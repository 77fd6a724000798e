//! Validation, result marshaling and session bookkeeping for a voice-analysis
//! boundary.
//!
//! Audio numbers cross this library as the bit patterns of IEEE-754
//! single-precision values (`u32`); the host converts them at its edge.

pub mod bits;
pub mod gate;
pub mod marshal;
pub mod track;
pub mod session;
pub mod transfer;
