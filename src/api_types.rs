//! The values that the library hands to its consumer.
use vstd::prelude::*;

verus! {

/// A participant joined or left.
#[derive(Clone, Debug, Default, PartialEq, Eq, Hash, PartialOrd, Ord)]
pub struct UserJoinData {
    pub user_id: u64,
    pub joined: bool,
}

/// The text recognized in one utterance.
#[derive(Clone, Debug, Default, PartialEq, Eq, Hash, PartialOrd, Ord)]
pub struct TranscribedMessage {
    /// Wall-clock time at which the utterance was received, in seconds since
    /// the Unix epoch.
    pub timestamp: u64,
    /// The speaker.
    pub user_id: u64,
    /// One or more text segments recognized in the audio, in order.
    pub text_segments: Vec<TextSegment>,
    /// Duration of the source audio.
    pub audio_duration_ms: u32,
    /// Time spent turning the audio into text.
    pub processing_time_ms: u32,
}

/// A piece of recognized text with its place in the utterance.
#[derive(Clone, Debug, Default, PartialEq, Eq, Hash, PartialOrd, Ord)]
pub struct TextSegment {
    pub text: String,
    /// Start of the segment, relative to the start of the utterance.
    pub start_offset_ms: u32,
    /// End of the segment, relative to the start of the utterance.
    pub end_offset_ms: u32,
}

/// The driver joined a voice channel.
#[derive(Clone, Debug, PartialEq, Eq, Hash, PartialOrd, Ord)]
pub struct ConnectData {
    /// The voice channel, where it is known.
    pub channel_id: Option<u64>,
    /// The channel's parent guild.
    pub guild_id: u64,
    /// The session, as named by the voice server.
    pub session_id: String,
    /// The voice server's domain name.
    pub server: String,
    /// The stream identity that the server assigned to this driver.
    pub ssrc: u32,
}

/// Where a voice connection ended.
#[derive(Clone, Debug, PartialEq, Eq, Hash, PartialOrd, Ord)]
pub enum DisconnectKind {
    /// The driver failed to connect.
    Connect,
    /// The driver failed to reconnect.
    Reconnect,
    /// The connection ended mid-session.
    Runtime,
}

/// Why a voice connection failed.
#[derive(Clone, Debug, PartialEq, Eq, Hash, PartialOrd, Ord)]
pub enum DisconnectReason {
    /// The attempt was dropped in favour of another.
    AttemptDiscarded,
    /// The driver had an internal error.
    Internal,
    /// A host I/O error; likely transient.
    Io,
    /// Client and server disagreed on the protocol.
    ProtocolViolation,
    /// The connection was not established in time.
    TimedOut,
    /// The server closed the websocket, with its close code if any.
    WsClosed(Option<u32>),
}

/// The driver left a voice channel, or failed to join one.
#[derive(Clone, Debug, PartialEq, Eq, Hash, PartialOrd, Ord)]
pub struct DisconnectData {
    pub kind: DisconnectKind,
    /// The cause of a failure; `None` where the disconnect was requested.
    pub reason: Option<DisconnectReason>,
    pub channel_id: Option<u64>,
    pub guild_id: u64,
    pub session_id: String,
}

/// Everything the library reports to its consumer.
#[derive(Clone, Debug, PartialEq, Eq, Hash, PartialOrd, Ord)]
pub enum VoiceChannelEvent {
    UserJoin(UserJoinData),
    TranscribedMessage(TranscribedMessage),
    Connect(ConnectData),
    Reconnect(ConnectData),
    Disconnect(DisconnectData),
}

} // verus!
