//! Configuration and error types shared by the whole backend.

use vstd::prelude::*;

verus! {

/// How strongly the voice processor lowers other (non-voice) audio.
#[derive(Clone, Copy, Debug, PartialEq, Eq, Structural)]
pub enum DuckingLevel {
    Default,
    Min,
    Mid,
    Max,
}

/// Channel layout requested by the caller.
#[derive(Clone, Copy, Debug, PartialEq, Eq, Structural)]
pub enum Channels {
    Mono,
    Stereo,
}

/// Errors reported by the backend.
#[derive(Debug, PartialEq, Eq)]
pub enum AecError {
    /// The platform offers no echo-cancelling voice processor.
    AecNotSupported,
    /// A Core Audio call failed; the text says which and with what status.
    BackendError(String),
}

/// What the caller asks of the voice-processing backend.
#[derive(Clone, Copy, Debug, PartialEq, Eq)]
pub struct AecConfig {
    /// Target sample rate in Hz (typically 48000).
    pub sample_rate: u32,
    /// Mono or stereo output.
    pub channels: Channels,
    /// Duck other audio by voice activity.
    pub enable_advanced_ducking: bool,
    /// How much to duck other audio.
    pub ducking_level: DuckingLevel,
    /// Turn the processor's automatic gain control on or off; `None` leaves it as it is.
    pub voice_processing_enable_agc: Option<bool>,
    /// Bypass voice processing; `None` leaves it as it is.
    pub voice_processing_bypass: Option<bool>,
    /// Input device to use; `None` keeps the system default.
    pub input_device_id: Option<u32>,
    /// Output device to use; `None` keeps the system default.
    pub output_device_id: Option<u32>,
}

impl Default for AecConfig {
    /// 48 kHz mono, no ducking change, every optional setting left as the system has it.
    fn default() -> (c: AecConfig)
        ensures
            c.sample_rate == 48000,
            c.channels == Channels::Mono,
            !c.enable_advanced_ducking,
            c.ducking_level == DuckingLevel::Default,
            c.voice_processing_enable_agc is None,
            c.voice_processing_bypass is None,
            c.input_device_id is None,
            c.output_device_id is None,
    {
        AecConfig {
            sample_rate: 48000,
            channels: Channels::Mono,
            enable_advanced_ducking: false,
            ducking_level: DuckingLevel::Default,
            voice_processing_enable_agc: None,
            voice_processing_bypass: None,
            input_device_id: None,
            output_device_id: None,
        }
    }
}

} // verus!
