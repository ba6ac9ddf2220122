use vstd::prelude::*;

use crate::errors::PipelineError;
use crate::frame::{Frame, FrameView};

verus! {

/// Mathematical value of the distribution channel: at most one pending
/// frame (the newest one sent), and whether the consumer side is still
/// attached.
#[verifier::ext_equal]
pub ghost struct SlotView {
    pub pending: Option<FrameView>,
    pub connected: bool,
}

/// What a send leaves in the slot: while the consumer is attached, the
/// new frame replaces any undelivered one (only the newest frame
/// matters); after a disconnect the slot is left untouched.
pub open spec fn slot_sent(s: SlotView, f: FrameView) -> SlotView {
    if s.connected {
        SlotView { pending: Some(f), connected: true }
    } else {
        s
    }
}

/// What a receive yields: the pending frame, if one is there.
pub open spec fn slot_taken(s: SlotView) -> Option<FrameView> {
    s.pending
}

/// What a receive leaves behind: an empty slot.
pub open spec fn slot_drained(s: SlotView) -> SlotView {
    SlotView { pending: None, connected: s.connected }
}

/// The distribution channel between the capture side and the
/// presentation side: a single-slot mailbox holding the latest converted
/// frame. Older unread frames are stale and are superseded by a newer
/// send; the consumer never waits on the producer.
pub struct FrameSlot {
    pending: Option<Frame>,
    connected: bool,
}

impl View for FrameSlot {
    type V = SlotView;

    closed spec fn view(&self) -> SlotView {
        SlotView {
            pending: match self.pending {
                Some(f) => Some(f@),
                None => None,
            },
            connected: self.connected,
        }
    }
}

impl FrameSlot {
    /// A fresh, empty channel with the consumer attached.
    pub fn new() -> (r: FrameSlot)
        ensures
            r@ == (SlotView { pending: None::<FrameView>, connected: true }),
    {
        FrameSlot { pending: None, connected: true }
    }

    /// Producer side. Never blocks: at most one frame is buffered, and a
    /// new send supersedes an undelivered one. Reports
    /// `ChannelDisconnected` once the consumer has detached, leaving the
    /// slot unchanged.
    pub fn send(&mut self, f: Frame) -> (r: Result<(), PipelineError>)
        ensures
            final(self)@ == slot_sent(old(self)@, f@),
            r is Ok <==> old(self)@.connected,
            r is Err ==> r == Err::<(), PipelineError>(PipelineError::ChannelDisconnected),
    {
        if self.connected {
            self.pending = Some(f);
            Ok(())
        } else {
            Err(PipelineError::ChannelDisconnected)
        }
    }

    /// Consumer side. Never blocks: yields the pending frame if one is
    /// there, and "no frame available" (`None`) otherwise, leaving the
    /// slot empty either way.
    pub fn try_receive(&mut self) -> (r: Option<Frame>)
        ensures
            final(self)@ == slot_drained(old(self)@),
            r is Some <==> slot_taken(old(self)@) is Some,
            r matches Some(f) ==> slot_taken(old(self)@) == Some(f@),
    {
        self.pending.take()
    }

    /// The consumer detaches; every later send reports disconnection.
    pub fn disconnect(&mut self)
        ensures
            final(self)@ == (SlotView { pending: old(self)@.pending, connected: false }),
    {
        self.connected = false;
    }

    /// Whether the consumer side is still attached.
    pub fn is_connected(&self) -> (r: bool)
        ensures
            r == self@.connected,
    {
        self.connected
    }
}

/// Newest-wins law: sending frame `a` and then frame `b`, with no
/// receive in between, leaves `b` as the frame that a subsequent receive
/// yields — never `a` (unless the two are the same frame).
pub proof fn lemma_newest_wins(s: SlotView, a: FrameView, b: FrameView)
    requires
        s.connected,
    ensures
        slot_taken(slot_sent(slot_sent(s, a), b)) == Some(b),
{
}

} // verus!
