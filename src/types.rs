//! Audio constants shared by the buffers and the transcription step, and the
//! transport events that the router consumes.
use vstd::prelude::*;

use crate::api_types::{ConnectData, DisconnectData};

verus! {

/// Interleaved channels in a transport frame (stereo).
pub const AUDIO_CHANNELS: usize = 2;

/// Sample rate of the transport, per channel.
pub const DISCORD_SAMPLES_PER_SECOND: usize = 48000;

pub const DISCORD_SAMPLES_PER_MILLISECOND: usize = DISCORD_SAMPLES_PER_SECOND / 1000;

/// Duration of one transport frame.
pub const PERIOD_PER_PACKET_GROUP_MS: usize = 20;

/// Samples per channel in one transport frame.
pub const AUDIO_SAMPLES_PER_FRAME: usize = DISCORD_SAMPLES_PER_MILLISECOND
    * PERIOD_PER_PACKET_GROUP_MS;

/// How much audio one speaker's buffer holds before it is flushed.
pub const AUDIO_TO_RECORD_SECONDS: usize = 30;

pub const AUDIO_TO_RECORD_MILLISECONDS: usize = AUDIO_TO_RECORD_SECONDS * 1000;

pub const AUDIO_TO_RECORD_FRAMES: usize = AUDIO_TO_RECORD_MILLISECONDS / PERIOD_PER_PACKET_GROUP_MS;

/// Capacity of a speaker's buffer, in interleaved samples: a whole number of
/// stereo frames.
pub const AUDIO_BUFFER_SIZE: usize = AUDIO_SAMPLES_PER_FRAME * AUDIO_TO_RECORD_FRAMES
    * AUDIO_CHANNELS;

/// Sample rate that the speech recognizer expects (mono).
pub const WHISPER_SAMPLES_PER_SECOND: usize = 16000;

/// One interleaved 16-bit PCM sample.
pub type AudioSample = i16;

/// Stable identity of a participant.
pub type UserId = u64;

/// Transport-assigned identity of one audio stream.
pub type Ssrc = u32;

/// A participant's source starts or stops transmitting.
#[derive(Clone, Debug, PartialEq, Eq, Hash)]
pub struct MySpeakingUpdateData {
    /// Whether this source is now speaking.
    pub speaking: bool,
    /// The source that changed state.
    pub ssrc: u32,
}

/// One decoded frame of interleaved PCM audio from a source.
#[derive(Clone, Debug, PartialEq, Eq, Hash)]
pub struct MyVoiceData {
    pub audio: Vec<i16>,
    pub ssrc: u32,
}

/// Binds a source to a participant, and says how the participant transmits.
#[derive(Clone, Debug, PartialEq, Eq, Hash)]
pub struct MySpeakingStateData {
    /// Whether the source carries microphone audio (rather than, say, a
    /// screen share).
    pub microphone: bool,
    pub ssrc: u32,
    /// The participant, where the transport reported one.
    pub user_id: Option<u64>,
}

/// A participant left the session.
#[derive(Clone, Debug, PartialEq, Eq, Hash)]
pub struct MyClientDisconnectData {
    pub user_id: u64,
}

/// The transport events that the router handles, one variant per kind.
#[derive(Clone, Debug, PartialEq, Eq, Hash)]
pub enum MyEventContext {
    /// A participant's source-to-identity binding and transmission mode.
    SpeakingStateUpdate(MySpeakingStateData),
    /// A source starts or stops transmitting.
    SpeakingUpdate(MySpeakingUpdateData),
    /// One decoded audio frame.
    VoicePacket(MyVoiceData),
    /// A participant left.
    ClientDisconnect(MyClientDisconnectData),
    /// The driver connected to a voice channel.
    DriverConnect(ConnectData),
    /// The driver reconnected after a network error.
    DriverReconnect(ConnectData),
    /// The driver failed to connect, or dropped from a channel.
    DriverDisconnect(DisconnectData),
}

} // verus!
