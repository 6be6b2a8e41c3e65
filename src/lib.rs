//! Turns per-participant voice audio into timed utterances ready for speech
//! recognition: the per-speaker ring buffers, the router that dispatches
//! transport events to them, and the pure parts of the transcription step.

pub mod api_types;
mod ring;
pub mod types;
pub mod voice_buffer;
pub mod packet_handler;
pub mod model;
pub mod whisper;
