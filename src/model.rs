//! The front of the router that the transport driver feeds: it drops frames
//! that arrived out of order and hands everything else to the router.
use vstd::prelude::*;

use crate::packet_handler::{handled, joins_consistently, HandlerOutput, PacketHandler};
use crate::types::MyEventContext;
use crate::voice_buffer::SpeakerState;

verus! {

/// A zero-length audio frame: the transport's mark of a packet that arrived
/// out of order.
pub open spec fn is_out_of_order(ctx: MyEventContext) -> bool {
    ctx matches MyEventContext::VoicePacket(d) && d.audio@.len() == 0
}

/// Receives every transport event for one voice session.
pub struct VoicePacketHandlerWrapper {
    voice_packet_handler: PacketHandler,
}

impl VoicePacketHandlerWrapper {
    /// The router that events are handed to.
    pub closed spec fn handler(&self) -> PacketHandler {
        self.voice_packet_handler
    }

    pub open spec fn wf(&self) -> bool {
        self.handler().wf()
    }

    /// The sessions that the router tracks.
    pub open spec fn sessions(&self) -> Map<u32, SpeakerState> {
        self.handler().sessions()
    }

    pub fn new(voice_packet_handler: PacketHandler) -> (w: Self)
        ensures
            w.handler() == voice_packet_handler,
    {
        VoicePacketHandlerWrapper { voice_packet_handler }
    }

    /// The router, for reading.
    pub fn voice_packet_handler(&self) -> (h: &PacketHandler)
        ensures
            *h == self.handler(),
    {
        &self.voice_packet_handler
    }

    /// Drops a frame that arrived out of order; hands any other event to the
    /// router.
    pub fn act(&mut self, ctx: MyEventContext) -> (out: HandlerOutput)
        requires
            old(self).wf(),
            joins_consistently(old(self).sessions(), ctx),
        ensures
            final(self).wf(),
            is_out_of_order(ctx) ==> final(self).sessions() == old(self).sessions() && out
                == HandlerOutput::Idle,
            !is_out_of_order(ctx) ==> handled(
                old(self).sessions(),
                ctx,
                final(self).sessions(),
                out,
            ),
    {
        if let MyEventContext::VoicePacket(d) = &ctx {
            if d.audio.len() == 0 {
                return HandlerOutput::Idle;
            }
        }
        self.voice_packet_handler.act(ctx)
    }
}

} // verus!
