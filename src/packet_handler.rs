//! The router: owns the map from source-stream identity to speaker buffer,
//! interprets transport events, and reports what its caller must do next.
use std::collections::HashMap;

use vstd::prelude::*;

use crate::api_types::VoiceChannelEvent;
use crate::types::{MyEventContext, MyVoiceData, AUDIO_BUFFER_SIZE};
use crate::voice_buffer::{
    flushed_by_push, flushed_clip, is_silence, pushed_contents, PushOutcome, SpeakerState,
    VoiceBufferForUser,
};

verus! {

/// How many simultaneous speakers the map makes room for up front.
pub const MAX_NUM_SPEAKING_PARTICIPANTS: usize = 10;

/// What the router reports after an event.
#[derive(Clone, Debug, PartialEq, Eq)]
pub enum HandlerOutput {
    /// Nothing to do.
    Idle,
    /// The event named a source that no session tracks; it was dropped.
    Untracked(u32),
    /// Audio that is not silence arrived from a source marked silent; it was
    /// dropped.
    RejectedAudio(u32),
    /// A microphone binding for this source came without a participant; it
    /// was dropped.
    MissingUserId(u32),
    /// A completed clip of `user_id`'s audio, ready for transcription.
    AudioComplete { user_id: u64, audio: Vec<i16> },
    /// An event for the consumer.
    Forward(VoiceChannelEvent),
}

/// The state of a session that has just been (re)created for `user_id`.
pub open spec fn fresh_session(user_id: u64) -> SpeakerState {
    SpeakerState { user_id, speaking: true, audio: Seq::<i16>::empty() }
}

/// The sessions that remain once every session of `user_id` is removed.
pub open spec fn without_user(s: Map<u32, SpeakerState>, user_id: u64) -> Map<u32, SpeakerState> {
    s.restrict(s.dom().filter(|k: u32| s[k].user_id != user_id))
}

/// `out` reports `clip` as a completed clip of `user_id`, or is idle where
/// there is no clip.
pub open spec fn reports_clip(out: HandlerOutput, user_id: u64, clip: Option<Seq<i16>>) -> bool {
    match clip {
        Some(c) => out matches HandlerOutput::AudioComplete { user_id: u, audio } && u == user_id
            && audio@ == c,
        None => out == HandlerOutput::Idle,
    }
}

/// A binding event never moves a tracked source to another participant.
pub open spec fn joins_consistently(s: Map<u32, SpeakerState>, ctx: MyEventContext) -> bool {
    match ctx {
        MyEventContext::SpeakingStateUpdate(d) => match d.user_id {
            Some(u) => d.microphone && s.contains_key(d.ssrc) ==> s[d.ssrc].user_id == u,
            None => true,
        },
        _ => true,
    }
}

/// The sessions after `ctx`, and what is reported, given the sessions before.
pub open spec fn handled(
    before: Map<u32, SpeakerState>,
    ctx: MyEventContext,
    after: Map<u32, SpeakerState>,
    out: HandlerOutput,
) -> bool {
    match ctx {
        MyEventContext::SpeakingStateUpdate(d) => if !d.microphone {
            after == before && out == HandlerOutput::Idle
        } else {
            match d.user_id {
                None => after == before && out == HandlerOutput::MissingUserId(d.ssrc),
                Some(u) => {
                    &&& after == before.insert(d.ssrc, fresh_session(u))
                    &&& reports_clip(
                        out,
                        u,
                        if before.contains_key(d.ssrc) {
                            flushed_clip(before[d.ssrc].audio)
                        } else {
                            None
                        },
                    )
                },
            }
        },
        MyEventContext::SpeakingUpdate(d) => if !before.contains_key(d.ssrc) {
            after == before && out == HandlerOutput::Untracked(d.ssrc)
        } else if d.speaking {
            after == before.insert(d.ssrc, SpeakerState { speaking: true, ..before[d.ssrc] })
                && out == HandlerOutput::Idle
        } else {
            &&& after == before.insert(
                d.ssrc,
                SpeakerState { speaking: false, audio: Seq::<i16>::empty(), ..before[d.ssrc] },
            )
            &&& reports_clip(out, before[d.ssrc].user_id, flushed_clip(before[d.ssrc].audio))
        },
        MyEventContext::VoicePacket(d) => if !before.contains_key(d.ssrc) {
            after == before && out == HandlerOutput::Untracked(d.ssrc)
        } else if before[d.ssrc].speaking {
            let held = before[d.ssrc].audio;
            &&& after == before.insert(
                d.ssrc,
                SpeakerState {
                    audio: pushed_contents(held, d.audio@, AUDIO_BUFFER_SIZE as nat),
                    ..before[d.ssrc]
                },
            )
            &&& reports_clip(
                out,
                before[d.ssrc].user_id,
                flushed_by_push(held, d.audio@, AUDIO_BUFFER_SIZE as nat),
            )
        } else {
            &&& after == before
            &&& out == if is_silence(d.audio@) {
                HandlerOutput::Idle
            } else {
                HandlerOutput::RejectedAudio(d.ssrc)
            }
        },
        MyEventContext::ClientDisconnect(d) => after == without_user(before, d.user_id) && out
            == HandlerOutput::Idle,
        MyEventContext::DriverConnect(c) => after == before && out == HandlerOutput::Forward(
            VoiceChannelEvent::Connect(c),
        ),
        MyEventContext::DriverReconnect(c) => after == before && out == HandlerOutput::Forward(
            VoiceChannelEvent::Reconnect(c),
        ),
        MyEventContext::DriverDisconnect(d) => after == before && out == HandlerOutput::Forward(
            VoiceChannelEvent::Disconnect(d),
        ),
    }
}

/// Tracks one speaker buffer per source-stream identity.
pub struct PacketHandler {
    ssrc_to_user_voice_data: HashMap<u32, VoiceBufferForUser>,
}

impl PacketHandler {
    /// The tracked sessions, by source-stream identity.
    pub closed spec fn sessions(&self) -> Map<u32, SpeakerState> {
        self.ssrc_to_user_voice_data@.map_values(|b: VoiceBufferForUser| b@)
    }

    pub closed spec fn wf(&self) -> bool {
        forall|k: u32|
            self.ssrc_to_user_voice_data@.contains_key(k) ==> (
            #[trigger] self.ssrc_to_user_voice_data@[k]).wf()
    }

    /// A router that tracks no session.
    pub fn new() -> (h: Self)
        ensures
            h.wf(),
            h.sessions() == Map::<u32, SpeakerState>::empty(),
    {
        let h = PacketHandler {
            ssrc_to_user_voice_data: HashMap::with_capacity(MAX_NUM_SPEAKING_PARTICIPANTS),
        };
        assert(h.sessions() =~= Map::<u32, SpeakerState>::empty());
        h
    }

    /// The participant that a source is bound to, where it is tracked.
    pub fn user_for_ssrc(&self, ssrc: u32) -> (r: Option<u64>)
        ensures
            r == (if self.sessions().contains_key(ssrc) {
                Some(self.sessions()[ssrc].user_id)
            } else {
                None
            }),
    {
        match self.ssrc_to_user_voice_data.get(&ssrc) {
            Some(b) => Some(b.user_id()),
            None => None,
        }
    }

    /// Whether a source is marked as speaking; `None` where it is not
    /// tracked.
    pub fn is_speaking(&self, ssrc: u32) -> (r: Option<bool>)
        ensures
            r == (if self.sessions().contains_key(ssrc) {
                Some(self.sessions()[ssrc].speaking)
            } else {
                None
            }),
    {
        match self.ssrc_to_user_voice_data.get(&ssrc) {
            Some(b) => Some(b.is_speaking()),
            None => None,
        }
    }

    /// The number of samples buffered for a source; `None` where it is not
    /// tracked.
    pub fn buffered_len(&self, ssrc: u32) -> (r: Option<usize>)
        requires
            self.wf(),
        ensures
            r == (if self.sessions().contains_key(ssrc) {
                Some(self.sessions()[ssrc].audio.len() as usize)
            } else {
                None
            }),
    {
        match self.ssrc_to_user_voice_data.get(&ssrc) {
            Some(b) => Some(b.buffered_len()),
            None => None,
        }
    }

    /// Removes the session of `ssrc` from the map and hands it over.
    fn take_session(&mut self, ssrc: u32) -> (s: Option<VoiceBufferForUser>)
        requires
            old(self).wf(),
        ensures
            final(self).wf(),
            final(self).sessions() == old(self).sessions().remove(ssrc),
            match s {
                Some(b) => old(self).sessions().contains_key(ssrc) && b@ == old(
                    self,
                ).sessions()[ssrc] && b.wf(),
                None => !old(self).sessions().contains_key(ssrc),
            },
    {
        let s = self.ssrc_to_user_voice_data.remove(&ssrc);
        assert(self.sessions() =~= old(self).sessions().remove(ssrc));
        s
    }

    /// Puts a session under `ssrc`, replacing any there.
    fn put_session(&mut self, ssrc: u32, b: VoiceBufferForUser)
        requires
            old(self).wf(),
            b.wf(),
        ensures
            final(self).wf(),
            final(self).sessions() == old(self).sessions().insert(ssrc, b@),
    {
        self.ssrc_to_user_voice_data.insert(ssrc, b);
        assert(self.sessions() =~= old(self).sessions().insert(ssrc, b@));
    }

    /// A participant starts using `ssrc`: any session already there (which
    /// must belong to the same participant) is flushed and replaced by a
    /// fresh one that is speaking.
    fn on_user_join(&mut self, ssrc: u32, user_id: u64) -> (out: HandlerOutput)
        requires
            old(self).wf(),
            old(self).sessions().contains_key(ssrc) ==> old(self).sessions()[ssrc].user_id
                == user_id,
        ensures
            final(self).wf(),
            final(self).sessions() == old(self).sessions().insert(ssrc, fresh_session(user_id)),
            reports_clip(
                out,
                user_id,
                if old(self).sessions().contains_key(ssrc) {
                    flushed_clip(old(self).sessions()[ssrc].audio)
                } else {
                    None
                },
            ),
    {
        let mut out = HandlerOutput::Idle;
        if let Some(mut previous) = self.take_session(ssrc) {
            if let Some(audio) = previous.on_stop_talking() {
                out = HandlerOutput::AudioComplete { user_id, audio };
            }
        }
        self.put_session(ssrc, VoiceBufferForUser::new(user_id));
        assert(self.sessions() =~= old(self).sessions().insert(ssrc, fresh_session(user_id)));
        out
    }

    fn on_start_talking(&mut self, ssrc: u32) -> (out: HandlerOutput)
        requires
            old(self).wf(),
        ensures
            final(self).wf(),
            old(self).sessions().contains_key(ssrc) ==> {
                &&& final(self).sessions() == old(self).sessions().insert(
                    ssrc,
                    SpeakerState { speaking: true, ..old(self).sessions()[ssrc] },
                )
                &&& out == HandlerOutput::Idle
            },
            !old(self).sessions().contains_key(ssrc) ==> final(self).sessions() == old(
                self,
            ).sessions() && out == HandlerOutput::Untracked(ssrc),
    {
        match self.take_session(ssrc) {
            Some(mut session) => {
                session.on_start_talking();
                self.put_session(ssrc, session);
                assert(self.sessions() =~= old(self).sessions().insert(
                    ssrc,
                    SpeakerState { speaking: true, ..old(self).sessions()[ssrc] },
                ));
                HandlerOutput::Idle
            },
            None => {
                assert(self.sessions() =~= old(self).sessions());
                HandlerOutput::Untracked(ssrc)
            },
        }
    }

    fn on_audio(&mut self, ssrc: u32, audio: &Vec<i16>) -> (out: HandlerOutput)
        requires
            old(self).wf(),
        ensures
            final(self).wf(),
            handled(
                old(self).sessions(),
                MyEventContext::VoicePacket(MyVoiceData { audio: *audio, ssrc }),
                final(self).sessions(),
                out,
            ),
    {
        match self.take_session(ssrc) {
            Some(mut session) => {
                let user_id: u64 = session.user_id();
                let speaking = session.is_speaking();
                let outcome = session.push(audio);
                self.put_session(ssrc, session);
                if speaking {
                    assert(self.sessions() =~= old(self).sessions().insert(
                        ssrc,
                        SpeakerState {
                            audio: pushed_contents(
                                old(self).sessions()[ssrc].audio,
                                audio@,
                                AUDIO_BUFFER_SIZE as nat,
                            ),
                            ..old(self).sessions()[ssrc]
                        },
                    ));
                } else {
                    assert(self.sessions() =~= old(self).sessions());
                }
                match outcome {
                    PushOutcome::Flushed(clip) => HandlerOutput::AudioComplete {
                        user_id,
                        audio: clip,
                    },
                    PushOutcome::RejectedWhileSilent => HandlerOutput::RejectedAudio(ssrc),
                    _ => HandlerOutput::Idle,
                }
            },
            None => {
                assert(self.sessions() =~= old(self).sessions());
                HandlerOutput::Untracked(ssrc)
            },
        }
    }

    fn on_stop_talking(&mut self, ssrc: u32) -> (out: HandlerOutput)
        requires
            old(self).wf(),
        ensures
            final(self).wf(),
            old(self).sessions().contains_key(ssrc) ==> {
                &&& final(self).sessions() == old(self).sessions().insert(
                    ssrc,
                    SpeakerState {
                        speaking: false,
                        audio: Seq::<i16>::empty(),
                        ..old(self).sessions()[ssrc]
                    },
                )
                &&& reports_clip(
                    out,
                    old(self).sessions()[ssrc].user_id,
                    flushed_clip(old(self).sessions()[ssrc].audio),
                )
            },
            !old(self).sessions().contains_key(ssrc) ==> final(self).sessions() == old(
                self,
            ).sessions() && out == HandlerOutput::Untracked(ssrc),
    {
        match self.take_session(ssrc) {
            Some(mut session) => {
                let user_id: u64 = session.user_id();
                let flushed = session.on_stop_talking();
                self.put_session(ssrc, session);
                assert(self.sessions() =~= old(self).sessions().insert(
                    ssrc,
                    SpeakerState {
                        speaking: false,
                        audio: Seq::<i16>::empty(),
                        ..old(self).sessions()[ssrc]
                    },
                ));
                match flushed {
                    Some(audio) => HandlerOutput::AudioComplete { user_id, audio },
                    None => HandlerOutput::Idle,
                }
            },
            None => {
                assert(self.sessions() =~= old(self).sessions());
                HandlerOutput::Untracked(ssrc)
            },
        }
    }

    /// Removes every session of `user_id`.
    fn on_user_leave(&mut self, user_id: u64)
        requires
            old(self).wf(),
        ensures
            final(self).wf(),
            final(self).sessions() == without_user(old(self).sessions(), user_id),
    {
        let ghost tracked_ssrcs = self.ssrc_to_user_voice_data@.dom();
        let mut ssrcs: Vec<u32> = Vec::new();
        for key in it: self.ssrc_to_user_voice_data.keys()
            invariant
                ssrcs.len() == it.index(),
                forall|j: int| 0 <= j < it.index() ==> ssrcs@[j] == *it.seq()[j],
                it.seq().unref().to_set() == tracked_ssrcs,
                forall|k: u32|
                    #![trigger tracked_ssrcs.contains(k)]
                    tracked_ssrcs.contains(k) ==> ssrcs@.contains(k) || it.index() < it.seq().len(),
        {
            ssrcs.push(*key);
            assert forall|k: u32| #![trigger tracked_ssrcs.contains(k)]
                tracked_ssrcs.contains(k) implies ssrcs@.contains(k) || it.index() + 1 < it.seq().len() by {
                if it.index() + 1 >= it.seq().len() {
                    assert(it.seq().unref().to_set().contains(k));
                    let j = choose|j: int| 0 <= j < it.seq().unref().len() && it.seq().unref()[j] == k;
                    assert(ssrcs@[j] == k);
                }
            }
        }
        assert(tracked_ssrcs =~= old(self).sessions().dom());
        let mut i: usize = 0;
        while i < ssrcs.len()
            invariant
                self.wf(),
                i <= ssrcs.len(),
                forall|k: u32| old(self).sessions().contains_key(k) ==> ssrcs@.contains(k),
                forall|k: u32|
                    #![trigger self.sessions().contains_key(k)]
                    self.sessions().contains_key(k) <==> old(self).sessions().contains_key(k) && !(
                    old(self).sessions()[k].user_id == user_id && ssrcs@.take(i as int).contains(
                        k,
                    )),
                forall|k: u32|
                    self.sessions().contains_key(k) ==> #[trigger] self.sessions()[k] == old(
                        self,
                    ).sessions()[k],
            decreases ssrcs.len() - i,
        {
            let ssrc: u32 = ssrcs[i];
            match self.take_session(ssrc) {
                Some(session) => {
                    if session.user_id() != user_id {
                        self.put_session(ssrc, session);
                    }
                },
                None => {},
            }
            let ghost done = ssrcs@.take(i as int);
            let ghost next = ssrcs@.take(i + 1);
            assert(next =~= done.push(ssrc));
            assert forall|k: u32| k != ssrc implies (next.contains(k) <==> done.contains(k)) by {
                if next.contains(k) {
                    let j = choose|j: int| 0 <= j < next.len() && next[j] == k;
                    assert(done[j] == k);
                }
                if done.contains(k) {
                    let j = choose|j: int| 0 <= j < done.len() && done[j] == k;
                    assert(next[j] == k);
                }
            }
            assert(next.contains(ssrc)) by {
                assert(next[done.len() as int] == ssrc);
            }
            i = i + 1;
        }
        assert(ssrcs@.take(i as int) =~= ssrcs@);
        assert(self.sessions() =~= without_user(old(self).sessions(), user_id));
    }

    /// Handles one transport event: binds microphone sources to
    /// participants, tracks speaking edges, buffers audio, and drops the
    /// sessions of participants who leave. Connection events are passed on to
    /// the consumer.
    pub fn act(&mut self, ctx: MyEventContext) -> (out: HandlerOutput)
        requires
            old(self).wf(),
            joins_consistently(old(self).sessions(), ctx),
        ensures
            final(self).wf(),
            handled(old(self).sessions(), ctx, final(self).sessions(), out),
    {
        match ctx {
            MyEventContext::SpeakingStateUpdate(d) => {
                if !d.microphone {
                    return HandlerOutput::Idle;
                }
                match d.user_id {
                    Some(user_id) => self.on_user_join(d.ssrc, user_id),
                    None => HandlerOutput::MissingUserId(d.ssrc),
                }
            },
            MyEventContext::SpeakingUpdate(d) => {
                if d.speaking {
                    self.on_start_talking(d.ssrc)
                } else {
                    self.on_stop_talking(d.ssrc)
                }
            },
            MyEventContext::VoicePacket(d) => self.on_audio(d.ssrc, &d.audio),
            MyEventContext::ClientDisconnect(d) => {
                self.on_user_leave(d.user_id);
                HandlerOutput::Idle
            },
            MyEventContext::DriverConnect(c) => HandlerOutput::Forward(
                VoiceChannelEvent::Connect(c),
            ),
            MyEventContext::DriverReconnect(c) => HandlerOutput::Forward(
                VoiceChannelEvent::Reconnect(c),
            ),
            MyEventContext::DriverDisconnect(d) => HandlerOutput::Forward(
                VoiceChannelEvent::Disconnect(d),
            ),
        }
    }
}

/// Once a participant leaves, none of their sessions remains, every other
/// session is kept as it was, and a later audio frame from one of their
/// sources is reported as untracked and changes nothing.
pub proof fn lemma_leave_untracks_sources(
    s: Map<u32, SpeakerState>,
    user_id: u64,
    ssrc: u32,
    frame: Vec<i16>,
    after: Map<u32, SpeakerState>,
    out: HandlerOutput,
)
    requires
        s.contains_key(ssrc),
        s[ssrc].user_id == user_id,
        handled(
            without_user(s, user_id),
            MyEventContext::VoicePacket(MyVoiceData { audio: frame, ssrc }),
            after,
            out,
        ),
    ensures
        forall|k: u32| #[trigger]
            without_user(s, user_id).contains_key(k) ==> without_user(s, user_id)[k].user_id
                != user_id,
        forall|k: u32|
            s.contains_key(k) && s[k].user_id != user_id ==> #[trigger] without_user(
                s,
                user_id,
            ).contains_key(k) && without_user(s, user_id)[k] == s[k],
        out == HandlerOutput::Untracked(ssrc),
        after == without_user(s, user_id),
{
}

} // verus!
