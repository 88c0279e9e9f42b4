# sys_voice

The verified core of a macOS echo-cancelling voice backend built on Apple's
VoiceProcessingIO audio unit.

- `src/` (verified with Verus): error values from Core Audio statuses
  (`status`), configuration types (`config`), the bring-up plan of the audio
  unit and its step-by-step driver (`setup`), the playback queue that feeds the
  speaker (`playback`), sizes used by the real-time callbacks (`callbacks`),
  and the assembly of the device list (`devices`).
- `app/`: the AudioToolbox / Core Audio calls, the real-time callbacks, and the
  tokio tasks that move samples; it performs what the library decides.
- `tests/`: tests of the library on concrete values.

Samples cross into the library as their IEEE-754 bit patterns
(`f32::to_bits`), sample rates as `f64::to_bits`; the library never computes
with floats.
