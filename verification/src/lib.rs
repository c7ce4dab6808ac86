//! A verified multi-output gain-distribution stage for live-sound monitoring.
//!
//! One stereo input is passed through to the main output unchanged and is
//! simultaneously sent, independently scaled, to four auxiliary stereo
//! destinations. Samples are plain integers; gains are linear amplitudes in
//! nano units (one billionth of unity), so every step of the signal path is
//! exact integer arithmetic with a proved contract.

pub mod curve;
pub mod db_text;
pub mod engine;
pub mod params;

use vstd::prelude::*;

verus! {

/// Linear amplitudes are held in nano units: `1_000_000_000` is unity gain.
pub const NANO: u64 = 1_000_000_000;

} // verus!
