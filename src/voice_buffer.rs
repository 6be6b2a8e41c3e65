//! One speaker's audio buffer: a fixed-capacity ring of interleaved samples
//! and a speaking/silent flag, with the policy that decides when the ring is
//! flushed as a completed clip.
use vstd::prelude::*;

use crate::ring::{
    ring_capacity, ring_contents, ring_drain, ring_free_len, ring_len, ring_new, ring_push,
    SampleRing,
};
use crate::types::AUDIO_BUFFER_SIZE;

verus! {

/// Whether `frame` does not fit in the room that `contents` leaves.
pub open spec fn overflows(contents: Seq<i16>, frame: Seq<i16>, capacity: nat) -> bool {
    frame.len() > capacity - contents.len()
}

/// What a ring holding `contents` holds after `frame` is pushed: a frame that
/// does not fit first flushes the ring, and then as much of the frame as fits
/// is appended.
pub open spec fn pushed_contents(contents: Seq<i16>, frame: Seq<i16>, capacity: nat) -> Seq<i16> {
    let base = if overflows(contents, frame, capacity) {
        Seq::<i16>::empty()
    } else {
        contents
    };
    base + frame.take(vstd::math::min(frame.len() as int, capacity - base.len()))
}

/// The clip that pushing `frame` flushes: everything held, where the frame
/// does not fit and something is held.
pub open spec fn flushed_by_push(contents: Seq<i16>, frame: Seq<i16>, capacity: nat) -> Option<
    Seq<i16>,
> {
    if overflows(contents, frame, capacity) && contents.len() > 0 {
        Some(contents)
    } else {
        None
    }
}

/// The clip that flushing `contents` hands over: none where nothing is held.
pub open spec fn flushed_clip(contents: Seq<i16>) -> Option<Seq<i16>> {
    if contents.len() > 0 {
        Some(contents)
    } else {
        None
    }
}

/// The samples of an optional clip.
pub open spec fn clip_of(clip: Option<Vec<i16>>) -> Option<Seq<i16>> {
    match clip {
        Some(v) => Some(v@),
        None => None,
    }
}

/// Whether every sample of a frame is zero (silence filler).
pub open spec fn is_silence(frame: Seq<i16>) -> bool {
    forall|i: int| 0 <= i < frame.len() ==> frame[i] == 0
}

/// The ring of one speaker, with room for `AUDIO_BUFFER_SIZE` samples.
pub struct VoiceBuffer {
    buffer: SampleRing,
}

impl VoiceBuffer {
    /// The samples held, oldest first.
    pub closed spec fn contents(&self) -> Seq<i16> {
        ring_contents(self.buffer)
    }

    /// The number of samples the buffer can hold.
    pub closed spec fn capacity(&self) -> nat {
        ring_capacity(self.buffer)
    }

    pub open spec fn wf(&self) -> bool {
        &&& self.capacity() == AUDIO_BUFFER_SIZE
        &&& self.contents().len() <= self.capacity()
    }

    pub fn new() -> (b: Self)
        ensures
            b.wf(),
            b.contents() == Seq::<i16>::empty(),
    {
        VoiceBuffer { buffer: ring_new(AUDIO_BUFFER_SIZE) }
    }

    /// Appends a frame. Where the frame does not fit in the room left, the
    /// buffer is flushed first and the flushed clip returned; a frame never
    /// overruns the ring.
    pub fn push(&mut self, audio: &Vec<i16>) -> (flushed: Option<Vec<i16>>)
        requires
            old(self).wf(),
        ensures
            final(self).wf(),
            final(self).contents() == pushed_contents(
                old(self).contents(),
                audio@,
                AUDIO_BUFFER_SIZE as nat,
            ),
            clip_of(flushed) == flushed_by_push(
                old(self).contents(),
                audio@,
                AUDIO_BUFFER_SIZE as nat,
            ),
    {
        let mut flushed: Option<Vec<i16>> = None;
        if ring_free_len(&self.buffer) < audio.len() {
            let clip = self.take_contents();
            if clip.len() > 0 {
                flushed = Some(clip);
            }
        }
        ring_push(&mut self.buffer, audio.as_slice());
        flushed
    }

    /// Hands over everything held as one clip and empties the buffer; an
    /// empty buffer hands over nothing.
    pub fn flush_buffer(&mut self) -> (flushed: Option<Vec<i16>>)
        requires
            old(self).wf(),
        ensures
            final(self).wf(),
            final(self).contents() == Seq::<i16>::empty(),
            clip_of(flushed) == flushed_clip(old(self).contents()),
    {
        if ring_len(&self.buffer) == 0 {
            return None;
        }
        Some(self.take_contents())
    }

    fn take_contents(&mut self) -> (clip: Vec<i16>)
        requires
            old(self).wf(),
        ensures
            final(self).wf(),
            final(self).contents() == Seq::<i16>::empty(),
            clip@ == old(self).contents(),
    {
        ring_drain(&mut self.buffer)
    }
}

/// What became of a pushed frame.
#[derive(Clone, Debug, PartialEq, Eq)]
pub enum PushOutcome {
    /// The frame was appended.
    Buffered,
    /// The frame did not fit: the buffer was flushed (this clip), then the
    /// frame appended.
    Flushed(Vec<i16>),
    /// Silence filler arrived while the speaker was silent; dropped.
    SilenceDropped,
    /// Audio that is not silence arrived while the speaker was silent: an
    /// anomaly; dropped.
    RejectedWhileSilent,
}

/// The state of one speaker's buffer, as the contracts see it.
pub struct SpeakerState {
    pub user_id: u64,
    pub speaking: bool,
    pub audio: Seq<i16>,
}

/// A speaker's buffer together with the participant it belongs to and
/// whether the participant is speaking.
pub struct VoiceBufferForUser {
    pub user_id: u64,
    buffer: VoiceBuffer,
    speaking: bool,
}

impl View for VoiceBufferForUser {
    type V = SpeakerState;

    closed spec fn view(&self) -> SpeakerState {
        SpeakerState {
            user_id: self.user_id,
            speaking: self.speaking,
            audio: self.buffer.contents(),
        }
    }
}

impl VoiceBufferForUser {
    pub closed spec fn wf(&self) -> bool {
        self.buffer.wf()
    }

    /// A fresh, empty buffer for a participant who is speaking.
    pub fn new(user_id: u64) -> (b: Self)
        ensures
            b.wf(),
            b@ == (SpeakerState { user_id, speaking: true, audio: Seq::<i16>::empty() }),
    {
        VoiceBufferForUser { user_id, buffer: VoiceBuffer::new(), speaking: true }
    }

    /// Takes one frame. While speaking, the frame is appended (flushing the
    /// buffer first where it does not fit); while silent, nothing changes.
    pub fn push(&mut self, audio: &Vec<i16>) -> (outcome: PushOutcome)
        requires
            old(self).wf(),
        ensures
            final(self).wf(),
            final(self)@.user_id == old(self)@.user_id,
            final(self)@.speaking == old(self)@.speaking,
            old(self)@.speaking ==> {
                &&& final(self)@.audio == pushed_contents(
                    old(self)@.audio,
                    audio@,
                    AUDIO_BUFFER_SIZE as nat,
                )
                &&& match flushed_by_push(old(self)@.audio, audio@, AUDIO_BUFFER_SIZE as nat) {
                    Some(clip) => outcome matches PushOutcome::Flushed(c) && c@ == clip,
                    None => outcome == PushOutcome::Buffered,
                }
            },
            !old(self)@.speaking ==> {
                &&& final(self)@.audio == old(self)@.audio
                &&& outcome == if is_silence(audio@) {
                    PushOutcome::SilenceDropped
                } else {
                    PushOutcome::RejectedWhileSilent
                }
            },
    {
        if !self.speaking {
            if all_zero(audio) {
                return PushOutcome::SilenceDropped;
            }
            return PushOutcome::RejectedWhileSilent;
        }
        match self.buffer.push(audio) {
            Some(clip) => PushOutcome::Flushed(clip),
            None => PushOutcome::Buffered,
        }
    }

    /// The participant starts talking again after a silence.
    pub fn on_start_talking(&mut self)
        requires
            old(self).wf(),
        ensures
            final(self).wf(),
            final(self)@ == (SpeakerState { speaking: true, ..old(self)@ }),
    {
        self.speaking = true;
    }

    /// The participant stops talking: the buffer is flushed whatever it
    /// holds, and an empty buffer hands over nothing.
    pub fn on_stop_talking(&mut self) -> (flushed: Option<Vec<i16>>)
        requires
            old(self).wf(),
        ensures
            final(self).wf(),
            final(self)@ == (SpeakerState {
                speaking: false,
                audio: Seq::<i16>::empty(),
                ..old(self)@
            }),
            clip_of(flushed) == flushed_clip(old(self)@.audio),
    {
        self.speaking = false;
        self.buffer.flush_buffer()
    }

    /// The participant the buffer belongs to.
    pub fn user_id(&self) -> (r: u64)
        ensures
            r == self@.user_id,
    {
        self.user_id
    }

    /// Whether the participant is marked as speaking.
    pub fn is_speaking(&self) -> (r: bool)
        ensures
            r == self@.speaking,
    {
        self.speaking
    }

    /// The number of samples buffered.
    pub fn buffered_len(&self) -> (n: usize)
        requires
            self.wf(),
        ensures
            n == self@.audio.len(),
    {
        ring_len(&self.buffer.buffer)
    }
}

/// Whether every sample of `audio` is zero.
fn all_zero(audio: &Vec<i16>) -> (r: bool)
    ensures
        r == is_silence(audio@),
{
    let mut i: usize = 0;
    while i < audio.len()
        invariant
            i <= audio.len(),
            forall|j: int| 0 <= j < i ==> audio@[j] == 0,
        decreases audio.len() - i,
    {
        if audio[i] != 0 {
            return false;
        }
        i = i + 1;
    }
    true
}

/// Pushes `frames` in turn into a ring holding `contents`: what the ring then
/// holds, and everything flushed on the way, in order.
pub open spec fn push_all(contents: Seq<i16>, frames: Seq<Seq<i16>>, capacity: nat) -> (Seq<
    i16,
>, Seq<i16>)
    decreases frames.len(),
{
    if frames.len() == 0 {
        (contents, Seq::<i16>::empty())
    } else {
        let (held, emitted) = push_all(contents, frames.drop_last(), capacity);
        let frame = frames.last();
        let flushed = match flushed_by_push(held, frame, capacity) {
            Some(clip) => clip,
            None => Seq::<i16>::empty(),
        };
        (pushed_contents(held, frame, capacity), emitted + flushed)
    }
}

/// A frame that does not fit is admitted only after everything held has been
/// flushed: the flushed clip is exactly what was held, and afterwards the
/// ring holds exactly the frame.
pub proof fn lemma_overflow_flushes_before_admitting(
    contents: Seq<i16>,
    frame: Seq<i16>,
    capacity: nat,
)
    requires
        contents.len() <= capacity,
        frame.len() <= capacity,
        overflows(contents, frame, capacity),
    ensures
        flushed_by_push(contents, frame, capacity) == Some(contents),
        pushed_contents(contents, frame, capacity) == frame,
{
    assert(Seq::<i16>::empty() + frame.take(frame.len() as int) =~= frame);
}

/// Over any sequence of frames that each fit in an empty ring, the ring never
/// holds more than its capacity, and no sample is lost: the flushed clips
/// followed by what is still held are the initial contents followed by every
/// frame, in order.
pub proof fn lemma_pushes_lose_nothing(contents: Seq<i16>, frames: Seq<Seq<i16>>, capacity: nat)
    requires
        contents.len() <= capacity,
        forall|i: int| 0 <= i < frames.len() ==> (#[trigger] frames[i]).len() <= capacity,
    ensures
        push_all(contents, frames, capacity).0.len() <= capacity,
        push_all(contents, frames, capacity).1 + push_all(contents, frames, capacity).0
            == contents + frames.flatten(),
    decreases frames.len(),
{
    frames.lemma_flatten_and_flatten_alt_are_equivalent();
    if frames.len() == 0 {
        assert(contents + frames.flatten() =~= contents);
        assert(Seq::<i16>::empty() + contents =~= contents);
    } else {
        let prefix = frames.drop_last();
        lemma_pushes_lose_nothing(contents, prefix, capacity);
        prefix.lemma_flatten_and_flatten_alt_are_equivalent();
        let (held, emitted) = push_all(contents, prefix, capacity);
        let frame = frames.last();
        assert(frame.len() <= capacity);
        assert(frame.take(frame.len() as int) =~= frame);
        if overflows(held, frame, capacity) {
            lemma_overflow_flushes_before_admitting(held, frame, capacity);
            assert(emitted + held + frame =~= contents + (prefix.flatten() + frame));
        } else {
            assert(emitted + Seq::<i16>::empty() + (held + frame) =~= contents + (
            prefix.flatten() + frame));
        }
        assert(frames.flatten() == prefix.flatten() + frame);
    }
}

} // verus!
