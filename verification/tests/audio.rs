//! Audio frame and audio source tests.

use livekit_ffi::audio_frame::AudioFrame;
use livekit_ffi::audio_source::AudioSourceOptions;
use livekit_ffi::audio_source::NativeAudioSource;
use livekit_ffi::audio_source::RtcAudioSource;

#[test]
fn audio_frame_new_is_silent() {
    let frame = AudioFrame::new(48000, 2, 480);
    assert_eq!(frame.sample_rate, 48000);
    assert_eq!(frame.num_channels, 2);
    assert_eq!(frame.samples_per_channel, 480);
    assert_eq!(frame.data.len(), 960);
    assert!(frame.data.iter().all(|&sample| sample == 0));
}

#[test]
fn audio_frame_new_empty_dimensions() {
    let frame = AudioFrame::new(8000, 0, 0);
    assert_eq!(frame.data.len(), 0);
}

#[test]
fn audio_source_options_default_is_all_off() {
    let options = AudioSourceOptions::default();
    assert!(!options.echo_cancellation);
    assert!(!options.noise_suppression);
    assert!(!options.auto_gain_control);
}

#[test]
fn native_audio_source_tracks_options() {
    let options = AudioSourceOptions {
        echo_cancellation: true,
        noise_suppression: true,
        auto_gain_control: false,
    };
    let mut source = NativeAudioSource::new(options);
    assert_eq!(source.audio_options(), options);
    assert_eq!(source.captured_frames(), 0);

    let replacement = AudioSourceOptions::default();
    source.set_audio_options(replacement);
    assert_eq!(source.audio_options(), replacement);
}

#[test]
fn native_audio_source_counts_captured_frames() {
    let mut source = NativeAudioSource::default();
    let frame = AudioFrame::new(16000, 1, 160);
    source.capture_frame(&frame);
    source.capture_frame(&frame);
    assert_eq!(source.captured_frames(), 2);
    assert_eq!(source.audio_options(), AudioSourceOptions::default());
}

#[test]
fn rtc_audio_source_dispatches_to_native() {
    let mut rtc = RtcAudioSource::Native(NativeAudioSource::default());
    let options = AudioSourceOptions {
        echo_cancellation: false,
        noise_suppression: true,
        auto_gain_control: true,
    };
    rtc.set_audio_options(options);
    assert_eq!(rtc.audio_options(), options);
}
