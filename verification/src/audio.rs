//! Packing the engine's audio format request into the field widths the
//! native audio subsystem expects.

use vstd::prelude::*;

verus! {

/// The audio format handed to the native audio subsystem when a playback
/// device is opened: frequency in hertz, channel count, and samples per
/// callback, in the native field widths.
pub struct AudioSettings {
    pub freq: i32,
    pub channels: u8,
    pub samples: u16,
}

/// Packs the engine's sample rate, channel count and per-callback sample
/// count into the native request fields. Each value is narrowed exactly as
/// a plain cast to the target width narrows it.
pub fn audio_settings(sample_rate: u32, channels: u32, sample_count: u32) -> (r: AudioSettings)
    ensures
        r.freq == sample_rate as i32,
        r.channels == channels as u8,
        r.samples == sample_count as u16,
{
    AudioSettings {
        freq: #[verifier::truncate] (sample_rate as i32),
        channels: #[verifier::truncate] (channels as u8),
        samples: #[verifier::truncate] (sample_count as u16),
    }
}

} // verus!
