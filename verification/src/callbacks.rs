//! Sizes and outcomes used by the real-time capture and render callbacks,
//! and the client stream layout both callbacks rely on.

use vstd::prelude::*;

verus! {

/// Bytes in one `f32` sample.
pub const BYTES_PER_SAMPLE: u32 = 4;

/// Status the render callback returns when the unit hands it no buffer
/// (`kAudio_ParamError`).
pub const RENDER_NO_BUFFER_STATUS: i32 = -50;

/// Byte size announced for a capture buffer of `frames` mono `f32` samples,
/// as the 32-bit field holds it (the product wraps modulo 2^32).
pub fn capture_buffer_bytes(frames: u32) -> (bytes: u32)
    ensures
        bytes == (frames as int * BYTES_PER_SAMPLE as int) % 0x1_0000_0000,
{
    frames.wrapping_mul(BYTES_PER_SAMPLE)
}

/// Whether a captured buffer is handed on: only when rendering it succeeded.
/// The callback returns `render_status` either way.
pub fn capture_delivered(render_status: i32) -> (deliver: bool)
    ensures
        deliver <==> render_status == 0,
{
    render_status == 0
}

/// How many whole `f32` samples fit in an output buffer of `byte_size` bytes.
pub fn render_sample_count(byte_size: u32) -> (n: usize)
    ensures
        n == byte_size / BYTES_PER_SAMPLE,
{
    (byte_size / BYTES_PER_SAMPLE) as usize
}

/// The integer fields of the client stream format: packed, non-interleaved,
/// mono linear PCM of 32-bit floats, one frame per packet.
#[derive(Clone, Copy, Debug, PartialEq, Eq, Structural)]
pub struct StreamLayout {
    pub bytes_per_packet: u32,
    pub frames_per_packet: u32,
    pub bytes_per_frame: u32,
    pub channels_per_frame: u32,
    pub bits_per_channel: u32,
    pub reserved: u32,
}

/// The layout of the format the backend asks for on both buses.
pub fn client_stream_layout() -> (layout: StreamLayout)
    ensures
        layout.bytes_per_packet == BYTES_PER_SAMPLE,
        layout.frames_per_packet == 1,
        layout.bytes_per_frame == BYTES_PER_SAMPLE,
        layout.channels_per_frame == 1,
        layout.bits_per_channel == BYTES_PER_SAMPLE * 8,
        layout.reserved == 0,
{
    StreamLayout {
        bytes_per_packet: BYTES_PER_SAMPLE,
        frames_per_packet: 1,
        bytes_per_frame: BYTES_PER_SAMPLE,
        channels_per_frame: 1,
        bits_per_channel: BYTES_PER_SAMPLE * 8,
        reserved: 0,
    }
}


/// A sample is 4 bytes, and a render request without a buffer is answered
/// with status -50.
pub proof fn lemma_callback_constants()
    ensures
        BYTES_PER_SAMPLE == 4,
        RENDER_NO_BUFFER_STATUS == -50,
{
}

} // verus!
