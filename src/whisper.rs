//! The decisions around one completed clip: whether it is long enough to
//! transcribe, its conversion to the recognizer's mono rate, whether the
//! previous utterance's tokens are carried over as context, and the message
//! that a recognition result becomes.
use vstd::prelude::*;

use crate::api_types::{TextSegment, TranscribedMessage};
use crate::types::{
    AUDIO_CHANNELS, DISCORD_SAMPLES_PER_MILLISECOND, DISCORD_SAMPLES_PER_SECOND,
    WHISPER_SAMPLES_PER_SECOND,
};

verus! {

/// Clips shorter than this are noise, not speech, and are not transcribed.
pub const MIN_AUDIO_THRESHOLD_MS: u32 = 500;

/// A previous utterance's tokens are carried over as context only when it
/// ended less than this long ago.
pub const CONTEXT_CARRYOVER_MS: u64 = 5000;

/// The most tokens taken from one text segment when building context.
pub const MAX_TOKENS_PER_SEGMENT: usize = 100;

/// Transport samples per recognizer sample: the transport rate is a whole
/// multiple of the recognizer rate.
pub const BITRATE_CONVERSION_RATIO: usize = DISCORD_SAMPLES_PER_SECOND
    / WHISPER_SAMPLES_PER_SECOND;

/// Interleaved transport samples that become one recognizer sample.
pub const GROUP_SIZE: usize = BITRATE_CONVERSION_RATIO * AUDIO_CHANNELS;

/// The duration of `num_samples` interleaved transport samples, in whole
/// milliseconds.
pub open spec fn duration_ms(num_samples: nat) -> nat {
    num_samples / (AUDIO_CHANNELS as nat) / (DISCORD_SAMPLES_PER_MILLISECOND as nat)
}

/// The duration of a clip of `num_samples` interleaved samples, in whole
/// milliseconds (saturating at `u32::MAX`).
pub fn audio_duration_ms(num_samples: usize) -> (ms: u32)
    ensures
        ms == vstd::math::min(duration_ms(num_samples as nat) as int, u32::MAX as int),
{
    let ms: usize = num_samples / AUDIO_CHANNELS / DISCORD_SAMPLES_PER_MILLISECOND;
    if ms > u32::MAX as usize {
        u32::MAX
    } else {
        ms as u32
    }
}

/// The duration of a completed clip where it is long enough to transcribe;
/// `None` for a clip shorter than `MIN_AUDIO_THRESHOLD_MS`.
pub fn clip_duration_to_transcribe(audio: &Vec<i16>) -> (r: Option<u32>)
    ensures
        r == (if duration_ms(audio@.len()) >= MIN_AUDIO_THRESHOLD_MS {
            Some(vstd::math::min(duration_ms(audio@.len()) as int, u32::MAX as int) as u32)
        } else {
            None
        }),
{
    let ms: u32 = audio_duration_ms(audio.len());
    if ms < MIN_AUDIO_THRESHOLD_MS {
        None
    } else {
        Some(ms)
    }
}

/// The sum of the `count` samples of `audio` that start at `start`.
pub open spec fn channel_sum(audio: Seq<i16>, start: int, count: nat) -> int
    decreases count,
{
    if count == 0 {
        0
    } else {
        channel_sum(audio, start, (count - 1) as nat) + audio[start + count - 1]
    }
}

/// The mono clip at the recognizer's rate: one sample per group of
/// `GROUP_SIZE` interleaved samples, the sum of the channels of the group's
/// first time slot. A trailing partial group is dropped.
pub open spec fn mono_samples(audio: Seq<i16>) -> Seq<int> {
    Seq::new(
        audio.len() / (GROUP_SIZE as nat),
        |i: int| channel_sum(audio, i * GROUP_SIZE, AUDIO_CHANNELS as nat),
    )
}

/// A clip of mono samples at the recognizer's rate; sample `i` stands for the
/// value `samples[i] / scale`, which lies in `[-1, 1]`.
pub struct WhisperClip {
    pub samples: Vec<i32>,
    pub scale: u32,
}

/// `clip` is `audio` at the recognizer's rate, peak-normalized: its scale is
/// the largest magnitude among its samples, or 1 where they are all zero.
pub open spec fn resampled(audio: Seq<i16>, clip: WhisperClip) -> bool {
    let mono = mono_samples(audio);
    &&& clip.samples@.len() == mono.len()
    &&& forall|i: int| 0 <= i < mono.len() ==> clip.samples@[i] == #[trigger] mono[i]
    &&& forall|i: int| 0 <= i < mono.len() ==> vstd::math::abs(#[trigger] mono[i]) <= clip.scale
    &&& if forall|i: int| 0 <= i < mono.len() ==> #[trigger] mono[i] == 0 {
        clip.scale == 1
    } else {
        exists|i: int| 0 <= i < mono.len() && vstd::math::abs(#[trigger] mono[i]) == clip.scale
    }
}

/// Converts an interleaved stereo clip at the transport rate into a mono clip
/// at the recognizer's rate by integer decimation, and finds the scale that
/// normalizes it to its peak.
pub fn resample_audio_from_discord_to_whisper(audio: &Vec<i16>) -> (clip: WhisperClip)
    ensures
        resampled(audio@, clip),
{
    // Decimation is exact only because the transport rate is a whole
    // multiple of the recognizer's rate.
    assert(DISCORD_SAMPLES_PER_SECOND % WHISPER_SAMPLES_PER_SECOND == 0);
    let out_len: usize = audio.len() / GROUP_SIZE;
    let mut samples: Vec<i32> = Vec::with_capacity(out_len);
    let mut audio_max: u32 = 0;
    let ghost mono = mono_samples(audio@);
    let mut i: usize = 0;
    while i < out_len
        invariant
            out_len == audio@.len() / (GROUP_SIZE as nat),
            audio@.len() <= usize::MAX,
            mono == mono_samples(audio@),
            i <= out_len,
            samples@.len() == i,
            forall|j: int| 0 <= j < i ==> samples@[j] == #[trigger] mono[j],
            forall|j: int| 0 <= j < i ==> vstd::math::abs(#[trigger] mono[j]) <= audio_max,
            audio_max == 0 || exists|j: int|
                0 <= j < i && vstd::math::abs(#[trigger] mono[j]) == audio_max,
            audio_max == 0 ==> forall|j: int| 0 <= j < i ==> #[trigger] mono[j] == 0,
        decreases out_len - i,
    {
        assert(i * GROUP_SIZE + GROUP_SIZE <= audio@.len()) by (nonlinear_arith)
            requires
                i < out_len,
                out_len == audio@.len() / 6,
        ;
        let start: usize = i * GROUP_SIZE;
        let mut val: i32 = 0;
        let mut c: usize = 0;
        while c < AUDIO_CHANNELS
            invariant
                i < out_len,
                out_len == audio@.len() / (GROUP_SIZE as nat),
                start == i * GROUP_SIZE,
                c <= AUDIO_CHANNELS,
                val == channel_sum(audio@, start as int, c as nat),
                -32768 * c <= val <= 32767 * c,
            decreases AUDIO_CHANNELS - c,
        {
            assert(start + c < audio@.len()) by (nonlinear_arith)
                requires
                    i < out_len,
                    out_len == audio@.len() / 6,
                    start == i * 6,
                    c < 2,
            ;
            val = val + audio[start + c] as i32;
            c = c + 1;
        }
        assert(val == mono[i as int]);
        let magnitude: u32 = if val < 0 {
            (-val) as u32
        } else {
            val as u32
        };
        if magnitude > audio_max {
            audio_max = magnitude;
        }
        samples.push(val);
        i = i + 1;
    }
    let scale: u32 = if audio_max == 0 {
        1
    } else {
        audio_max
    };
    WhisperClip { samples, scale }
}

/// A clip in which every sample is the same positive amplitude comes out
/// constant and fully saturated: every mono sample is the sum of the channels
/// and equals the scale, so each normalizes to exactly 1.
pub proof fn lemma_constant_clip_saturates(audio: Seq<i16>, amplitude: i16, clip: WhisperClip)
    requires
        amplitude > 0,
        forall|i: int| 0 <= i < audio.len() ==> audio[i] == amplitude,
        audio.len() >= GROUP_SIZE,
        resampled(audio, clip),
    ensures
        clip.samples@.len() == audio.len() / (GROUP_SIZE as nat),
        clip.scale == AUDIO_CHANNELS * amplitude,
        forall|i: int| 0 <= i < clip.samples@.len() ==> clip.samples@[i] == clip.scale,
{
    let mono = mono_samples(audio);
    assert forall|i: int| 0 <= i < mono.len() implies #[trigger] mono[i] == 2 * amplitude by {
        assert(i * 6 + 1 < audio.len()) by (nonlinear_arith)
            requires
                0 <= i < audio.len() / 6,
        ;
        assert(channel_sum(audio, i * 6, 0) == 0);
        assert(audio[i * 6] == amplitude);
        assert(channel_sum(audio, i * 6, 1) == amplitude);
        assert(channel_sum(audio, i * 6, 2) == 2 * amplitude);
    }
    assert(mono.len() > 0);
    assert(mono[0] != 0);
    let j = choose|j: int| 0 <= j < mono.len() && vstd::math::abs(#[trigger] mono[j]) == clip.scale;
    assert(mono[j] == 2 * amplitude);
    assert forall|i: int| 0 <= i < clip.samples@.len() implies clip.samples@[i] == clip.scale by {
        assert(mono[i] == 2 * amplitude);
    }
}

/// The tokens of each text segment that tokenized, in order; a segment that
/// failed to tokenize contributes nothing.
pub open spec fn joined_tokens(segment_tokens: Seq<Option<Vec<i32>>>) -> Seq<i32>
    decreases segment_tokens.len(),
{
    if segment_tokens.len() == 0 {
        Seq::<i32>::empty()
    } else {
        joined_tokens(segment_tokens.drop_last()) + match segment_tokens.last() {
            Some(t) => t@,
            None => Seq::<i32>::empty(),
        }
    }
}

/// Whether an utterance by `user_id` that begins at `now_ms` continues the
/// one recorded by `last_user_id` that ended at `last_ms`: same participant,
/// and less than `CONTEXT_CARRYOVER_MS` in between.
pub open spec fn continues(last_user_id: u64, last_ms: u64, user_id: u64, now_ms: u64) -> bool {
    &&& last_user_id == user_id
    &&& last_ms <= now_ms
    &&& now_ms - last_ms < CONTEXT_CARRYOVER_MS
}

/// The most recent transcribed utterance: its tokens, when it ended
/// (milliseconds since the Unix epoch), and its speaker.
pub struct LastTranscriptionData {
    tokens: Vec<i32>,
    timestamp: u64,
    user_id: u64,
}

impl LastTranscriptionData {
    pub closed spec fn spec_tokens(&self) -> Seq<i32> {
        self.tokens@
    }

    pub closed spec fn spec_timestamp(&self) -> u64 {
        self.timestamp
    }

    pub closed spec fn spec_user_id(&self) -> u64 {
        self.user_id
    }

    /// The context left by `message`, an utterance that ended at
    /// `end_timestamp`, given the tokenization of each of its text segments
    /// (`None` for a segment that did not tokenize).
    pub fn from_transcribed_message(
        message: &TranscribedMessage,
        segment_tokens: &Vec<Option<Vec<i32>>>,
        end_timestamp: u64,
    ) -> (d: Self)
        ensures
            d.spec_tokens() == joined_tokens(segment_tokens@),
            d.spec_timestamp() == end_timestamp,
            d.spec_user_id() == message.user_id,
    {
        let mut tokens: Vec<i32> = Vec::new();
        let mut i: usize = 0;
        while i < segment_tokens.len()
            invariant
                i <= segment_tokens.len(),
                tokens@ == joined_tokens(segment_tokens@.take(i as int)),
            decreases segment_tokens.len() - i,
        {
            let ghost before = tokens@;
            match &segment_tokens[i] {
                Some(segment) => {
                    let mut j: usize = 0;
                    while j < segment.len()
                        invariant
                            j <= segment.len(),
                            tokens@ == before + segment@.take(j as int),
                        decreases segment.len() - j,
                    {
                        tokens.push(segment[j]);
                        assert(segment@.take(j + 1) == segment@.take(j as int).push(segment[j as int]));
                        j = j + 1;
                    }
                    assert(segment@.take(j as int) == segment@);
                },
                None => {
                    assert(tokens@ == before + Seq::<i32>::empty());
                },
            }
            assert(segment_tokens@.take(i + 1).drop_last() == segment_tokens@.take(i as int));
            i = i + 1;
        }
        assert(segment_tokens@.take(i as int) == segment_tokens@);
        LastTranscriptionData { tokens, timestamp: end_timestamp, user_id: message.user_id }
    }

    /// The recorded tokens.
    pub fn tokens(&self) -> (t: &Vec<i32>)
        ensures
            t@ == self.spec_tokens(),
    {
        &self.tokens
    }

    /// When the recorded utterance ended.
    pub fn timestamp(&self) -> (t: u64)
        ensures
            t == self.spec_timestamp(),
    {
        self.timestamp
    }

    /// The speaker of the recorded utterance.
    pub fn user_id(&self) -> (u: u64)
        ensures
            u == self.spec_user_id(),
    {
        self.user_id
    }

    /// Whether an utterance by `user_id` beginning at `now_ms` takes this
    /// one's tokens as context.
    pub fn is_context_for(&self, user_id: u64, now_ms: u64) -> (r: bool)
        ensures
            r == continues(self.spec_user_id(), self.spec_timestamp(), user_id, now_ms),
    {
        self.user_id == user_id && self.timestamp <= now_ms && now_ms - self.timestamp
            < CONTEXT_CARRYOVER_MS
    }
}

/// The tokens to hand the recognizer as context for an utterance by
/// `user_id` that begins at `now_ms`: those of the last utterance where it
/// continues, none otherwise.
pub fn prior_tokens(last: &Option<LastTranscriptionData>, user_id: u64, now_ms: u64) -> (r: Option<
    Vec<i32>,
>)
    ensures
        match last {
            Some(d) => if continues(d.spec_user_id(), d.spec_timestamp(), user_id, now_ms) {
                r matches Some(t) && t@ == d.spec_tokens()
            } else {
                r is None
            },
            None => r is None,
        },
{
    match last {
        Some(d) => {
            if d.is_context_for(user_id, now_ms) {
                let t = d.tokens().clone();
                assert(t@ =~= d.spec_tokens());
                Some(t)
            } else {
                None
            }
        },
        None => None,
    }
}

/// A time reported by the recognizer, in hundredths of a second, as whole
/// milliseconds clamped to the range of `u32`.
pub open spec fn offset_ms(centiseconds: i64) -> int {
    vstd::math::min(vstd::math::max(centiseconds * 10, 0), u32::MAX as int)
}

fn centiseconds_to_ms(centiseconds: i64) -> (ms: u32)
    ensures
        ms == offset_ms(centiseconds),
{
    if centiseconds <= 0 {
        0
    } else if centiseconds >= (u32::MAX / 10) as i64 + 1 {
        u32::MAX
    } else {
        (centiseconds as u32) * 10
    }
}

/// A text segment from the recognizer's output: its text, and its start and
/// end times in hundredths of a second from the start of the clip.
pub fn text_segment_from_engine(text: String, t0: i64, t1: i64) -> (seg: TextSegment)
    ensures
        seg.text == text,
        seg.start_offset_ms == offset_ms(t0),
        seg.end_offset_ms == offset_ms(t1),
{
    TextSegment {
        text,
        start_offset_ms: centiseconds_to_ms(t0),
        end_offset_ms: centiseconds_to_ms(t1),
    }
}

/// Wall-clock time elapsed from `start_ms` to `end_ms`, in milliseconds: zero
/// where the clock went backwards, and at most `u32::MAX`.
pub fn processing_time_ms(start_ms: u64, end_ms: u64) -> (ms: u32)
    ensures
        ms == vstd::math::min(vstd::math::max(end_ms - start_ms, 0), u32::MAX as int),
{
    if end_ms <= start_ms {
        0
    } else if end_ms - start_ms > u32::MAX as u64 {
        u32::MAX
    } else {
        (end_ms - start_ms) as u32
    }
}

/// The message for a recognition result: none where the recognizer found no
/// text, so that an empty result is dropped.
pub fn build_transcribed_message(
    timestamp: u64,
    user_id: u64,
    text_segments: Vec<TextSegment>,
    audio_duration_ms: u32,
    processing_time_ms: u32,
) -> (m: Option<TranscribedMessage>)
    ensures
        text_segments@.len() == 0 ==> m is None,
        text_segments@.len() > 0 ==> m == Some(
            TranscribedMessage {
                timestamp,
                user_id,
                text_segments,
                audio_duration_ms,
                processing_time_ms,
            },
        ),
{
    if text_segments.len() == 0 {
        return None;
    }
    Some(TranscribedMessage {
        timestamp,
        user_id,
        text_segments,
        audio_duration_ms,
        processing_time_ms,
    })
}

} // verus!
