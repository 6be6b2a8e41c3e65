use discrivener::api_types::{ConnectData, DisconnectData, DisconnectKind, DisconnectReason, VoiceChannelEvent};
use discrivener::model::VoicePacketHandlerWrapper;
use discrivener::packet_handler::{HandlerOutput, PacketHandler};
use discrivener::types::{
    MyClientDisconnectData, MyEventContext, MySpeakingStateData, MySpeakingUpdateData,
    MyVoiceData,
};
use discrivener::whisper::{build_transcribed_message, clip_duration_to_transcribe};
use discrivener::api_types::TextSegment;

const FRAME: usize = 1920;

fn join(ssrc: u32, user_id: u64) -> MyEventContext {
    MyEventContext::SpeakingStateUpdate(MySpeakingStateData {
        microphone: true,
        ssrc,
        user_id: Some(user_id),
    })
}

fn speaking(ssrc: u32, speaking: bool) -> MyEventContext {
    MyEventContext::SpeakingUpdate(MySpeakingUpdateData { speaking, ssrc })
}

fn audio(ssrc: u32, value: i16) -> MyEventContext {
    MyEventContext::VoicePacket(MyVoiceData { audio: vec![value; FRAME], ssrc })
}

fn leave(user_id: u64) -> MyEventContext {
    MyEventContext::ClientDisconnect(MyClientDisconnectData { user_id })
}

fn connect_data() -> ConnectData {
    ConnectData {
        channel_id: Some(5),
        guild_id: 6,
        session_id: "session".to_string(),
        server: "voice.example".to_string(),
        ssrc: 77,
    }
}

#[test]
fn join_creates_speaking_session() {
    let mut h = PacketHandler::new();
    assert_eq!(h.user_for_ssrc(10), None);
    assert_eq!(h.act(join(10, 1000)), HandlerOutput::Idle);
    assert_eq!(h.user_for_ssrc(10), Some(1000));
    assert_eq!(h.is_speaking(10), Some(true));
    assert_eq!(h.buffered_len(10), Some(0));
}

#[test]
fn screen_share_binding_is_ignored() {
    let mut h = PacketHandler::new();
    let ctx = MyEventContext::SpeakingStateUpdate(MySpeakingStateData {
        microphone: false,
        ssrc: 10,
        user_id: Some(1000),
    });
    assert_eq!(h.act(ctx), HandlerOutput::Idle);
    assert_eq!(h.user_for_ssrc(10), None);
}

#[test]
fn binding_without_user_is_reported() {
    let mut h = PacketHandler::new();
    let ctx = MyEventContext::SpeakingStateUpdate(MySpeakingStateData {
        microphone: true,
        ssrc: 10,
        user_id: None,
    });
    assert_eq!(h.act(ctx), HandlerOutput::MissingUserId(10));
    assert_eq!(h.user_for_ssrc(10), None);
}

#[test]
fn events_for_untracked_sources_are_reported() {
    let mut h = PacketHandler::new();
    assert_eq!(h.act(speaking(3, true)), HandlerOutput::Untracked(3));
    assert_eq!(h.act(speaking(3, false)), HandlerOutput::Untracked(3));
    assert_eq!(h.act(audio(3, 1)), HandlerOutput::Untracked(3));
    assert_eq!(h.user_for_ssrc(3), None);
}

#[test]
fn router_rejects_audio_while_silent() {
    let mut h = PacketHandler::new();
    h.act(join(10, 1000));
    h.act(speaking(10, false));
    assert_eq!(h.act(audio(10, 0)), HandlerOutput::Idle);
    assert_eq!(h.act(audio(10, 12)), HandlerOutput::RejectedAudio(10));
    assert_eq!(h.buffered_len(10), Some(0));
    h.act(speaking(10, true));
    assert_eq!(h.act(audio(10, 12)), HandlerOutput::Idle);
    assert_eq!(h.buffered_len(10), Some(FRAME));
}

#[test]
fn stop_on_empty_session_emits_nothing() {
    let mut h = PacketHandler::new();
    h.act(join(10, 1000));
    assert_eq!(h.act(speaking(10, false)), HandlerOutput::Idle);
    assert_eq!(h.is_speaking(10), Some(false));
}

#[test]
fn rejoin_flushes_pending_audio() {
    let mut h = PacketHandler::new();
    h.act(join(10, 1000));
    h.act(audio(10, 4));
    match h.act(join(10, 1000)) {
        HandlerOutput::AudioComplete { user_id, audio } => {
            assert_eq!(user_id, 1000);
            assert_eq!(audio, vec![4i16; FRAME]);
        }
        other => panic!("expected the pending clip, got {:?}", other),
    }
    assert_eq!(h.buffered_len(10), Some(0));
    assert_eq!(h.is_speaking(10), Some(true));
}

#[test]
fn leave_removes_all_sessions_of_user() {
    let mut h = PacketHandler::new();
    h.act(join(1, 700));
    h.act(join(2, 700));
    h.act(join(3, 800));
    h.act(audio(1, 5));
    assert_eq!(h.act(leave(700)), HandlerOutput::Idle);
    assert_eq!(h.user_for_ssrc(1), None);
    assert_eq!(h.user_for_ssrc(2), None);
    assert_eq!(h.user_for_ssrc(3), Some(800));
    assert_eq!(h.act(audio(1, 5)), HandlerOutput::Untracked(1));
    assert_eq!(h.act(audio(2, 5)), HandlerOutput::Untracked(2));
    assert_eq!(h.user_for_ssrc(1), None);
    assert_eq!(h.act(audio(3, 5)), HandlerOutput::Idle);
    assert_eq!(h.buffered_len(3), Some(FRAME));
}

#[test]
fn driver_events_are_forwarded() {
    let mut h = PacketHandler::new();
    assert_eq!(
        h.act(MyEventContext::DriverConnect(connect_data())),
        HandlerOutput::Forward(VoiceChannelEvent::Connect(connect_data()))
    );
    assert_eq!(
        h.act(MyEventContext::DriverReconnect(connect_data())),
        HandlerOutput::Forward(VoiceChannelEvent::Reconnect(connect_data()))
    );
    let d = DisconnectData {
        kind: DisconnectKind::Runtime,
        reason: Some(DisconnectReason::WsClosed(Some(4006))),
        channel_id: None,
        guild_id: 6,
        session_id: "session".to_string(),
    };
    assert_eq!(
        h.act(MyEventContext::DriverDisconnect(d.clone())),
        HandlerOutput::Forward(VoiceChannelEvent::Disconnect(d))
    );
}

#[test]
fn wrapper_drops_out_of_order_frames() {
    let mut w = VoicePacketHandlerWrapper::new(PacketHandler::new());
    let empty = MyEventContext::VoicePacket(MyVoiceData { audio: Vec::new(), ssrc: 4 });
    assert_eq!(w.act(empty), HandlerOutput::Idle);
    assert_eq!(w.act(audio(4, 1)), HandlerOutput::Untracked(4));
    w.act(join(4, 99));
    assert_eq!(w.voice_packet_handler().user_for_ssrc(4), Some(99));
    w.act(audio(4, 1));
    let empty = MyEventContext::VoicePacket(MyVoiceData { audio: Vec::new(), ssrc: 4 });
    assert_eq!(w.act(empty), HandlerOutput::Idle);
    assert_eq!(w.voice_packet_handler().buffered_len(4), Some(FRAME));
}

fn speak_frames(h: &mut PacketHandler, ssrc: u32, frames: usize) -> Vec<HandlerOutput> {
    let mut outputs = Vec::new();
    for _ in 0..frames {
        let out = h.act(audio(ssrc, 1000));
        if out != HandlerOutput::Idle {
            outputs.push(out);
        }
    }
    outputs
}

fn transcribe(out: &HandlerOutput) -> Option<u32> {
    match out {
        HandlerOutput::AudioComplete { user_id, audio } => {
            let duration = clip_duration_to_transcribe(audio)?;
            let segment = TextSegment { text: "hello".to_string(), start_offset_ms: 0, end_offset_ms: 1 };
            let m = build_transcribed_message(0, *user_id, vec![segment], duration, 0)?;
            Some(m.audio_duration_ms)
        }
        _ => None,
    }
}

#[test]
fn two_seconds_of_speech_give_one_message() {
    let mut h = PacketHandler::new();
    h.act(join(10, 1000));
    assert!(speak_frames(&mut h, 10, 100).is_empty());
    let out = h.act(speaking(10, false));
    match &out {
        HandlerOutput::AudioComplete { user_id, audio } => {
            assert_eq!(*user_id, 1000);
            assert_eq!(audio.len(), 100 * FRAME);
        }
        other => panic!("expected a clip, got {:?}", other),
    }
    assert_eq!(transcribe(&out), Some(2000));
    assert_eq!(h.act(speaking(10, false)), HandlerOutput::Idle);
}

#[test]
fn short_speech_is_flushed_but_discarded() {
    let mut h = PacketHandler::new();
    h.act(join(10, 1000));
    speak_frames(&mut h, 10, 15);
    let out = h.act(speaking(10, false));
    match &out {
        HandlerOutput::AudioComplete { audio, .. } => assert_eq!(audio.len(), 15 * FRAME),
        other => panic!("expected a clip, got {:?}", other),
    }
    assert_eq!(transcribe(&out), None);
}

#[test]
fn long_speech_flushes_at_capacity_and_keeps_buffering() {
    let mut h = PacketHandler::new();
    h.act(join(10, 1000));
    let outputs = speak_frames(&mut h, 10, 1600);
    assert_eq!(outputs.len(), 1);
    match &outputs[0] {
        HandlerOutput::AudioComplete { audio, .. } => assert_eq!(audio.len(), 1500 * FRAME),
        other => panic!("expected a clip, got {:?}", other),
    }
    assert_eq!(transcribe(&outputs[0]), Some(30000));
    assert_eq!(h.buffered_len(10), Some(100 * FRAME));
    let rest = h.act(speaking(10, false));
    assert_eq!(transcribe(&rest), Some(2000));
}
