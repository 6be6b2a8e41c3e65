use discrivener::types::AUDIO_BUFFER_SIZE;
use discrivener::voice_buffer::{PushOutcome, VoiceBuffer, VoiceBufferForUser};

const FRAME: usize = 1920;

fn frame_of(value: i16) -> Vec<i16> {
    vec![value; FRAME]
}

#[test]
fn new_buffer_is_speaking_and_empty() {
    let b = VoiceBufferForUser::new(42);
    assert_eq!(b.user_id, 42);
    assert_eq!(b.user_id(), 42);
    assert!(b.is_speaking());
    assert_eq!(b.buffered_len(), 0);
}

#[test]
fn push_appends_while_speaking() {
    let mut b = VoiceBufferForUser::new(1);
    assert_eq!(b.push(&frame_of(5)), PushOutcome::Buffered);
    assert_eq!(b.push(&frame_of(6)), PushOutcome::Buffered);
    assert_eq!(b.buffered_len(), 2 * FRAME);
}

#[test]
fn capacity_holds_thirty_seconds_of_stereo_frames() {
    assert_eq!(AUDIO_BUFFER_SIZE, 2_880_000);
    assert_eq!(AUDIO_BUFFER_SIZE % FRAME, 0);
}

#[test]
fn push_flushes_before_overflowing_frame() {
    let mut b = VoiceBufferForUser::new(1);
    for _ in 0..1500 {
        assert_eq!(b.push(&frame_of(3)), PushOutcome::Buffered);
    }
    assert_eq!(b.buffered_len(), AUDIO_BUFFER_SIZE);
    match b.push(&frame_of(4)) {
        PushOutcome::Flushed(clip) => {
            assert_eq!(clip.len(), AUDIO_BUFFER_SIZE);
            assert!(clip.iter().all(|s| *s == 3));
        }
        other => panic!("expected a flush, got {:?}", other),
    }
    assert_eq!(b.buffered_len(), FRAME);
}

#[test]
fn push_sequence_loses_nothing() {
    let mut b = VoiceBuffer::new();
    let mut expected: Vec<i16> = Vec::new();
    let mut emitted: Vec<i16> = Vec::new();
    let mut flushes = 0;
    for i in 0..1600usize {
        let frame: Vec<i16> = (0..FRAME).map(|j| ((i * 7 + j) % 30000) as i16).collect();
        expected.extend_from_slice(&frame);
        if let Some(clip) = b.push(&frame) {
            assert!(clip.len() <= AUDIO_BUFFER_SIZE);
            emitted.extend_from_slice(&clip);
            flushes += 1;
        }
    }
    assert_eq!(flushes, 1);
    let rest = b.flush_buffer().expect("the buffer holds the tail");
    assert_eq!(rest.len(), 100 * FRAME);
    emitted.extend_from_slice(&rest);
    assert_eq!(emitted, expected);
    assert_eq!(b.flush_buffer(), None);
}

#[test]
fn oversized_frame_is_cut_to_capacity() {
    let mut b = VoiceBuffer::new();
    let frame = vec![1i16; AUDIO_BUFFER_SIZE + 10];
    assert_eq!(b.push(&frame), None);
    let clip = b.flush_buffer().unwrap();
    assert_eq!(clip.len(), AUDIO_BUFFER_SIZE);
}

#[test]
fn stop_talking_flushes_partial_buffer() {
    let mut b = VoiceBufferForUser::new(9);
    b.push(&frame_of(7));
    let clip = b.on_stop_talking().expect("a partial buffer is flushed");
    assert_eq!(clip, frame_of(7));
    assert!(!b.is_speaking());
    assert_eq!(b.buffered_len(), 0);
}

#[test]
fn stop_talking_on_empty_buffer_emits_nothing() {
    let mut b = VoiceBufferForUser::new(9);
    assert_eq!(b.on_stop_talking(), None);
    assert_eq!(b.on_stop_talking(), None);
}

#[test]
fn silence_while_silent_is_dropped() {
    let mut b = VoiceBufferForUser::new(9);
    b.on_stop_talking();
    assert_eq!(b.push(&frame_of(0)), PushOutcome::SilenceDropped);
    assert_eq!(b.buffered_len(), 0);
}

#[test]
fn audio_while_silent_is_rejected() {
    let mut b = VoiceBufferForUser::new(9);
    b.on_stop_talking();
    let mut frame = frame_of(0);
    frame[100] = 1;
    assert_eq!(b.push(&frame), PushOutcome::RejectedWhileSilent);
    assert_eq!(b.buffered_len(), 0);
}

#[test]
fn start_talking_after_stop_accepts_audio() {
    let mut b = VoiceBufferForUser::new(9);
    b.on_stop_talking();
    b.on_start_talking();
    assert!(b.is_speaking());
    assert_eq!(b.push(&frame_of(2)), PushOutcome::Buffered);
    assert_eq!(b.buffered_len(), FRAME);
}
