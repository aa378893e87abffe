//! Audio sources: boundary-side state of engine capture objects.

use crate::audio_frame::AudioFrame;
use vstd::prelude::*;

verus! {

/// Processing options the engine applies to captured audio.
#[derive(Clone, Copy, Debug, PartialEq, Eq, Structural)]
pub struct AudioSourceOptions {
    pub echo_cancellation: bool,
    pub noise_suppression: bool,
    pub auto_gain_control: bool,
}

impl Default for AudioSourceOptions {
    /// All processing switched off.
    fn default() -> (r: Self)
        ensures
            !r.echo_cancellation,
            !r.noise_suppression,
            !r.auto_gain_control,
    {
        AudioSourceOptions {
            echo_cancellation: false,
            noise_suppression: false,
            auto_gain_control: false,
        }
    }
}

/// A native capture source.  The state the boundary tracks of the engine
/// object is its option set and how many frames it has accepted.
#[derive(Debug, Clone)]
pub struct NativeAudioSource {
    options: AudioSourceOptions,
    captured_frames: u64,
}

impl NativeAudioSource {
    /// The options currently applied by the source.
    pub closed spec fn spec_options(self) -> AudioSourceOptions {
        self.options
    }

    /// How many frames the source has accepted so far.
    pub closed spec fn spec_captured_frames(self) -> u64 {
        self.captured_frames
    }

    /// A fresh source with the given options and no captured frames.
    pub fn new(options: AudioSourceOptions) -> (r: NativeAudioSource)
        ensures
            r.spec_options() == options,
            r.spec_captured_frames() == 0,
    {
        NativeAudioSource { options, captured_frames: 0 }
    }

    /// Hands one well-formed frame of samples to the engine.
    #[allow(unused_variables)]
    pub fn capture_frame(&mut self, frame: &AudioFrame)
        requires
            frame.wf(),
            old(self).spec_captured_frames() < u64::MAX,
        ensures
            final(self).spec_options() == old(self).spec_options(),
            final(self).spec_captured_frames() == old(self).spec_captured_frames() + 1,
    {
        self.captured_frames = self.captured_frames + 1;
    }

    /// Replaces the source's processing options.
    pub fn set_audio_options(&mut self, options: AudioSourceOptions)
        ensures
            final(self).spec_options() == options,
            final(self).spec_captured_frames() == old(self).spec_captured_frames(),
    {
        self.options = options;
    }

    /// The options currently applied by the source.
    pub fn audio_options(&self) -> (r: AudioSourceOptions)
        ensures
            r == self.spec_options(),
    {
        self.options
    }

    /// How many frames the source has accepted so far.
    pub fn captured_frames(&self) -> (r: u64)
        ensures
            r == self.spec_captured_frames(),
    {
        self.captured_frames
    }
}

impl Default for NativeAudioSource {
    /// A fresh source with default options.
    fn default() -> (r: Self)
        ensures
            !r.spec_options().echo_cancellation,
            !r.spec_options().noise_suppression,
            !r.spec_options().auto_gain_control,
            r.spec_captured_frames() == 0,
    {
        NativeAudioSource::new(AudioSourceOptions::default())
    }
}

/// The closed set of audio source kinds the boundary can own, dispatched
/// by variant.
#[non_exhaustive]
#[derive(Debug, Clone)]
pub enum RtcAudioSource {
    Native(NativeAudioSource),
}

impl RtcAudioSource {
    /// The options currently applied by the underlying source.
    pub open spec fn spec_options(self) -> AudioSourceOptions {
        match self {
            RtcAudioSource::Native(source) => source.spec_options(),
        }
    }

    /// How many frames the underlying source has accepted so far.
    pub open spec fn spec_captured_frames(self) -> u64 {
        match self {
            RtcAudioSource::Native(source) => source.spec_captured_frames(),
        }
    }

    /// Replaces the processing options of the underlying source.
    pub fn set_audio_options(&mut self, options: AudioSourceOptions)
        ensures
            final(self).spec_options() == options,
            final(self).spec_captured_frames() == old(self).spec_captured_frames(),
    {
        match self {
            RtcAudioSource::Native(source) => source.set_audio_options(options),
        }
    }

    /// The options currently applied by the underlying source.
    pub fn audio_options(&self) -> (r: AudioSourceOptions)
        ensures
            r == self.spec_options(),
    {
        match self {
            RtcAudioSource::Native(source) => source.audio_options(),
        }
    }
}

} // verus!
