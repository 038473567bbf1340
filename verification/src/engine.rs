//! Decisions of the seek/decode engine.
//!
//! The demuxer and decoder themselves hold trait objects of the media
//! library and run outside the verified core; every decision they need —
//! which track to select, what duration to report, where a native seek
//! lands, and how many samples a fallback seek must discard — is computed
//! here from plain values.

use vstd::prelude::*;
use crate::AudioError;

verus! {

/// The nominal sample rate assumed when the container does not state one.
pub const DEFAULT_SAMPLE_RATE: u32 = 44100;

/// The nominal channel count assumed when the container does not state one.
pub const DEFAULT_CHANNELS: u16 = 2;

/// Duration hints arrive in ticks of 100 nanoseconds; this many ticks make
/// one millisecond.
pub const TICKS_PER_MS: i64 = 10000;

/// Which seek strategy produced a successful seek: the native strategy asks
/// the format reader to jump directly to a timestamp; the fallback strategy
/// decodes and discards samples until the estimated offset is reached.
#[derive(Debug, Clone, Copy, PartialEq, Eq, Structural)]
pub enum SeekStrategy {
    Native,
    Fallback,
}

/// The result of a successful seek: the strategy that succeeded and the
/// offset, in milliseconds, that was sought.
#[derive(Debug, Clone)]
pub struct SeekOutcome {
    pub strategy: SeekStrategy,
    pub target_ms: u64,
}

/// Selects the track the decoder will read: the first track whose codec is
/// recognized as an audio codec. `recognized` holds, per track of the
/// container, whether its codec was recognized. Fails with
/// `UnsupportedFormat` when no track qualifies.
pub fn select_track(recognized: &Vec<bool>) -> (r: Result<usize, AudioError>)
    ensures
        match r {
            Ok(i) => i < recognized@.len() && recognized@[i as int] && forall|k: int|
                0 <= k < i ==> !recognized@[k],
            Err(e) => e == AudioError::UnsupportedFormat && forall|k: int|
                0 <= k < recognized@.len() ==> !recognized@[k],
        },
{
    let n: usize = recognized.len();
    let mut i: usize = 0;
    while i < n
        invariant
            n == recognized@.len(),
            i <= n,
            forall|k: int| 0 <= k < i ==> !recognized@[k],
        decreases n - i,
    {
        if recognized[i] {
            return Ok(i);
        }
        i = i + 1;
    }
    Err(AudioError::UnsupportedFormat)
}

/// The duration, in milliseconds, derived from a container that reports
/// `n_frames` sample frames at `sample_rate` frames per second; zero (that
/// is, unknown) when the container reports no frame count.
pub fn probed_duration_ms(n_frames: Option<u64>, sample_rate: u32) -> (r: u64)
    requires
        sample_rate >= 1,
        n_frames matches Some(f) ==> f * 1000 <= u64::MAX as int,
    ensures
        match n_frames {
            Some(f) => r == f * 1000 / (sample_rate as int),
            None => r == 0,
        },
{
    match n_frames {
        Some(f) => (f * 1000) / (sample_rate as u64),
        None => 0,
    }
}

/// The effective duration of a track, in milliseconds: the duration probed
/// from the container when it is known, otherwise the externally supplied
/// hint in ticks, otherwise zero for unknown.
pub open spec fn effective_duration_spec(probed_ms: u64, hint_ticks: Option<i64>) -> u64 {
    if probed_ms > 0 {
        probed_ms
    } else {
        match hint_ticks {
            Some(t) => if t > 0 {
                (t / TICKS_PER_MS) as u64
            } else {
                0
            },
            None => 0,
        }
    }
}

/// See [`effective_duration_spec`].
pub fn effective_duration_ms(probed_ms: u64, hint_ticks: Option<i64>) -> (r: u64)
    ensures
        r == effective_duration_spec(probed_ms, hint_ticks),
{
    if probed_ms > 0 {
        probed_ms
    } else {
        match hint_ticks {
            Some(t) => if t > 0 {
                (t / TICKS_PER_MS) as u64
            } else {
                0
            },
            None => 0,
        }
    }
}

/// Where a native seek to `target_ms` lands: the timestamp in the format
/// reader's time base of one over `sample_rate`.
pub fn native_seek_timestamp(target_ms: u64, sample_rate: u32) -> (r: u64)
    requires
        target_ms * (sample_rate as int) <= u64::MAX as int,
    ensures
        r == target_ms * (sample_rate as int) / 1000,
{
    (target_ms * (sample_rate as u64)) / 1000
}

/// How many interleaved samples a fallback seek discards to reach
/// `target_ms`, estimated from a nominal sample rate and channel count.
/// The estimate uses the nominal parameters, not the decoder's actual ones,
/// so the skip distance can be off on sources with non-standard rates; both
/// strategies are kept as designed and the native one is preferred.
pub fn fallback_skip_count(target_ms: u64, sample_rate: u32, channels: u16) -> (r: u64)
    requires
        target_ms * (sample_rate as int) <= u64::MAX as int,
        (target_ms * (sample_rate as int) / 1000) * (channels as int) <= u64::MAX as int,
    ensures
        r == (target_ms * (sample_rate as int) / 1000) * (channels as int),
{
    ((target_ms * (sample_rate as u64)) / 1000) * (channels as u64)
}

} // verus!
