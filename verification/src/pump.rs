use vstd::pervasive::VecAdditionalExecFns;
use vstd::prelude::*;

use crate::channel::{slot_drained, slot_taken, FrameSlot};
use crate::frame::{FrameView, PixelLayout};

verus! {

/// The pump's failure: the received frame does not match the fixed
/// presentation buffer. A session's dimensions never change, so this is
/// a contract violation on the producer side; it is reported loudly
/// rather than silently corrupting the buffer.
#[derive(Clone, Copy, PartialEq, Eq, Structural, Debug)]
pub enum PumpError {
    FrameMismatch,
}

/// Mathematical value of the presentation pump: its fixed dimensions and
/// the bytes of its working buffer.
#[verifier::ext_equal]
pub ghost struct PumpView {
    pub width: int,
    pub height: int,
    pub buffer: Seq<u8>,
}

/// A frame the pump accepts: the session's dimensions, presentation
/// layout, and exactly one byte per buffer cell.
pub open spec fn frame_fits(p: PumpView, f: FrameView) -> bool {
    &&& f.width == p.width
    &&& f.height == p.height
    &&& f.layout == PixelLayout::PresentationRgba
    &&& f.data.len() == p.buffer.len()
}

/// The periodic presentation consumer: on each external tick it asks the
/// channel for the latest frame and, if one is there, overwrites its
/// fixed-size, pre-allocated working buffer in place. The buffer is
/// owned by the presentation side alone; the rendering surface reads it
/// after each tick.
pub struct PresentationPump {
    width: u32,
    height: u32,
    buffer: Vec<u8>,
}

impl View for PresentationPump {
    type V = PumpView;

    closed spec fn view(&self) -> PumpView {
        PumpView { width: self.width as int, height: self.height as int, buffer: self.buffer@ }
    }
}

impl PresentationPump {
    /// The buffer always holds exactly one presentation-layout image of
    /// the fixed dimensions.
    pub open spec fn wf(self) -> bool {
        self@.buffer.len() == self@.width * self@.height * 4
    }

    /// A pump sized at session start to the source's resolution, with a
    /// black, fully transparent buffer until the first frame arrives.
    pub fn new(width: u32, height: u32) -> (r: PresentationPump)
        requires
            width * height * 4 <= usize::MAX,
        ensures
            r.wf(),
            r@.width == width,
            r@.height == height,
            forall|i: int| 0 <= i < r@.buffer.len() ==> r@.buffer[i] == 0u8,
    {
        let len: usize = (width as usize) * (height as usize) * 4;
        let mut buffer: Vec<u8> = Vec::new();
        let mut i: usize = 0;
        while i < len
            invariant
                i <= len,
                buffer@.len() == i,
                forall|j: int| 0 <= j < buffer@.len() ==> buffer@[j] == 0u8,
            decreases len - i,
        {
            buffer.push(0);
            i = i + 1;
        }
        PresentationPump { width, height, buffer }
    }

    /// One presentation cycle. A tick that finds no pending frame leaves
    /// the buffer byte-identical and reports that nothing changed (a
    /// no-op, not an error); a fitting frame overwrites the buffer in
    /// place; anything else is refused with the buffer untouched.
    pub fn tick(&mut self, slot: &mut FrameSlot) -> (r: Result<bool, PumpError>)
        requires
            old(self).wf(),
        ensures
            final(self).wf(),
            final(self)@.width == old(self)@.width,
            final(self)@.height == old(self)@.height,
            final(slot)@ == slot_drained(old(slot)@),
            slot_taken(old(slot)@) is None ==> r == Ok::<bool, PumpError>(false)
                && final(self)@.buffer == old(self)@.buffer,
            slot_taken(old(slot)@) matches Some(f) ==> {
                &&& frame_fits(old(self)@, f) ==> r == Ok::<bool, PumpError>(true)
                    && final(self)@.buffer == f.data
                &&& !frame_fits(old(self)@, f) ==> r == Err::<bool, PumpError>(
                    PumpError::FrameMismatch,
                ) && final(self)@.buffer == old(self)@.buffer
            },
    {
        match slot.try_receive() {
            None => Ok(false),
            Some(f) => {
                let fits = f.width == self.width as i64 && f.height == self.height as i64
                    && f.layout == PixelLayout::PresentationRgba && f.data.len()
                    == self.buffer.len();
                if fits {
                    let n: usize = f.data.len();
                    let mut j: usize = 0;
                    while j < n
                        invariant
                            n == f.data@.len(),
                            n == self.buffer@.len(),
                            j <= n,
                            forall|k: int| 0 <= k < j ==> self.buffer@[k] == f.data@[k],
                            self.width == old(self).width,
                            self.height == old(self).height,
                        decreases n - j,
                    {
                        let byte = f.data[j];
                        self.buffer.set(j, byte);
                        j = j + 1;
                    }
                    proof {
                        assert(self.buffer@ =~= f.data@);
                    }
                    Ok(true)
                } else {
                    Err(PumpError::FrameMismatch)
                }
            },
        }
    }

    /// The working buffer, for the rendering surface to read.
    pub fn buffer(&self) -> (r: &Vec<u8>)
        ensures
            r@ == self@.buffer,
    {
        &self.buffer
    }

    /// The fixed width the pump was sized with.
    pub fn width(&self) -> (r: u32)
        ensures
            r == self@.width,
    {
        self.width
    }

    /// The fixed height the pump was sized with.
    pub fn height(&self) -> (r: u32)
        ensures
            r == self@.height,
    {
        self.height
    }
}

} // verus!
