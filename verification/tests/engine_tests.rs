use bloodin::engine::fallback_skip_count;
use bloodin::engine::effective_duration_ms;
use bloodin::engine::native_seek_timestamp;
use bloodin::engine::probed_duration_ms;
use bloodin::engine::select_track;
use bloodin::engine::SeekOutcome;
use bloodin::engine::SeekStrategy;
use bloodin::engine::DEFAULT_CHANNELS;
use bloodin::engine::DEFAULT_SAMPLE_RATE;
use bloodin::AudioError;

#[test]
fn select_track_takes_the_first_recognized_codec() {
    let recognized = vec![false, true, true];
    assert_eq!(select_track(&recognized), Ok(1));
    let all_good = vec![true, false];
    assert_eq!(select_track(&all_good), Ok(0));
}

#[test]
fn select_track_fails_without_a_recognized_codec() {
    let none_good = vec![false, false, false];
    assert_eq!(select_track(&none_good), Err(AudioError::UnsupportedFormat));
    let empty: Vec<bool> = vec![];
    assert_eq!(select_track(&empty), Err(AudioError::UnsupportedFormat));
}

#[test]
fn probed_duration_comes_from_frames_over_rate() {
    // Three seconds of frames at the nominal rate.
    assert_eq!(probed_duration_ms(Some(3 * 44100), 44100), 3000);
    assert_eq!(probed_duration_ms(Some(44100), 44100), 1000);
    assert_eq!(probed_duration_ms(None, 44100), 0);
    // An uneven division rounds down.
    assert_eq!(probed_duration_ms(Some(44099), 44100), 999);
}

#[test]
fn effective_duration_prefers_the_probe() {
    assert_eq!(effective_duration_ms(2500, Some(90_000_000)), 2500);
}

#[test]
fn effective_duration_falls_back_to_the_hint() {
    // 30,000,000 ticks of 100 ns are three seconds.
    assert_eq!(effective_duration_ms(0, Some(30_000_000)), 3000);
}

#[test]
fn effective_duration_is_zero_when_unknown() {
    assert_eq!(effective_duration_ms(0, None), 0);
    assert_eq!(effective_duration_ms(0, Some(0)), 0);
    assert_eq!(effective_duration_ms(0, Some(-42)), 0);
}

#[test]
fn native_seek_timestamp_is_in_the_readers_time_base() {
    // Three seconds at 44.1 kHz: 132,300 timestamp units.
    assert_eq!(native_seek_timestamp(3000, 44100), 132_300);
    assert_eq!(native_seek_timestamp(0, 44100), 0);
    assert_eq!(native_seek_timestamp(500, 48000), 24_000);
}

#[test]
fn fallback_skip_count_covers_all_channels() {
    // Three seconds at the nominal rate and channel count.
    assert_eq!(
        fallback_skip_count(3000, DEFAULT_SAMPLE_RATE, DEFAULT_CHANNELS),
        3 * 44100 * 2
    );
    assert_eq!(fallback_skip_count(0, DEFAULT_SAMPLE_RATE, DEFAULT_CHANNELS), 0);
    assert_eq!(fallback_skip_count(1000, 22050, 1), 22050);
}

#[test]
fn seek_outcome_records_the_strategy() {
    let native = SeekOutcome { strategy: SeekStrategy::Native, target_ms: 2000 };
    assert_eq!(native.strategy, SeekStrategy::Native);
    assert_eq!(native.target_ms, 2000);
    let fallback = SeekOutcome { strategy: SeekStrategy::Fallback, target_ms: 2000 };
    assert_ne!(fallback.strategy, native.strategy);
}

#[test]
fn error_messages_name_the_failure() {
    assert_eq!(
        AudioError::NetworkError("timed out".to_string()).message(),
        "network error: timed out"
    );
    assert_eq!(AudioError::IoError("denied".to_string()).message(), "i/o error: denied");
    assert_eq!(AudioError::DecodeError("bad frame".to_string()).message(), "decode error: bad frame");
    assert_eq!(AudioError::UnsupportedFormat.message(), "no valid audio track found");
    assert_eq!(AudioError::ChannelClosed.message(), "player is shut down");
    assert_eq!(AudioError::MissingSource.message(), "no usable byte source");
}
