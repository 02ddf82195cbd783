//! Polyphonic voice-allocation core of a sample-based synthesizer.
//!
//! The [`voice_pool::VoicePool`] owns a bounded collection of [`voice::Voice`]
//! synthesis units and decides, deterministically, which unit plays which
//! note: reuse of idle slots, growth up to the polyphony limit, voice
//! stealing under pressure, exclusive-class preemption, and per-block render
//! dispatch with channel-to-group routing.
//!
//! All quantities are integers: envelope amplitudes and gains are held in
//! thousandths of full scale, generator values in integer generator units,
//! and time in sample ticks. Audio sample mixing itself is the caller's
//! concern; the pool hands back a render plan per block.

pub mod channel;
pub mod generator;
pub mod modulator;
pub mod voice;
pub mod voice_pool;
