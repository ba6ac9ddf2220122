use vstd::prelude::*;

use crate::frame::{Frame, FrameView, PixelLayout};

verus! {

/// Mathematical value of the persistence sink: the container metadata it
/// was opened with, the frames appended so far in order, and whether the
/// container has been finalized. A closed sink stands for a finalized,
/// independently playable file (valid header and trailer); a sink that
/// is never closed stands for an unplayable file.
#[verifier::ext_equal]
pub ghost struct SinkView {
    pub fps: int,
    pub width: int,
    pub height: int,
    pub frames: Seq<FrameView>,
    pub closed: bool,
}

/// The on-disk container writer for the captured stream. It appends
/// frames in the source pixel layout and must be closed exactly once, on
/// every loop-exit path, to flush the container metadata.
pub struct Sink {
    fps: u32,
    width: u32,
    height: u32,
    frame_count: u64,
    closed: bool,
    frames: Ghost<Seq<FrameView>>,
}

impl View for Sink {
    type V = SinkView;

    closed spec fn view(&self) -> SinkView {
        SinkView {
            fps: self.fps as int,
            width: self.width as int,
            height: self.height as int,
            frames: self.frames@,
            closed: self.closed,
        }
    }
}

impl Sink {
    /// Internal consistency: the running count agrees with the appended
    /// frames.
    pub closed spec fn wf(self) -> bool {
        self.frame_count == self.frames@.len()
    }

    /// Opens a container sized and rated to match the source. The frame
    /// rate must be the source's measured rate: a mismatch would produce
    /// a file that plays back at the wrong speed.
    pub fn open(fps: u32, width: u32, height: u32) -> (r: Sink)
        ensures
            r.wf(),
            r@ == (SinkView {
                fps: fps as int,
                width: width as int,
                height: height as int,
                frames: Seq::<FrameView>::empty(),
                closed: false,
            }),
    {
        Sink { fps, width, height, frame_count: 0, closed: false, frames: Ghost(Seq::empty()) }
    }

    /// Appends one frame, best-effort: a malformed frame (a non-positive
    /// reported width or height) is skipped rather than written, so the
    /// container is never corrupted; every other frame is written
    /// unconditionally.
    pub fn append(&mut self, f: &Frame) -> (written: bool)
        requires
            old(self).wf(),
            !old(self)@.closed,
            old(self)@.frames.len() < u64::MAX,
            f@.layout == PixelLayout::SourceBgr,
        ensures
            final(self).wf(),
            written <==> !f@.malformed(),
            written ==> final(self)@ == (SinkView {
                frames: old(self)@.frames.push(f@),
                ..old(self)@
            }),
            !written ==> final(self)@ == old(self)@,
    {
        if f.is_malformed() {
            false
        } else {
            self.frame_count = self.frame_count + 1;
            self.frames = Ghost(self.frames@.push(f@));
            true
        }
    }

    /// Finalizes the container, flushing its metadata so the file is
    /// independently playable. Must be called exactly once: the
    /// precondition rules out a second close.
    pub fn close(&mut self)
        requires
            old(self).wf(),
            !old(self)@.closed,
        ensures
            final(self).wf(),
            final(self)@ == (SinkView { closed: true, ..old(self)@ }),
    {
        self.closed = true;
    }

    /// How many frames the container holds.
    pub fn frame_count(&self) -> (r: u64)
        requires
            self.wf(),
        ensures
            r == self@.frames.len(),
    {
        self.frame_count
    }

    /// The frame rate the container was opened with.
    pub fn fps(&self) -> (r: u32)
        ensures
            r == self@.fps,
    {
        self.fps
    }

    /// The frame width the container was opened with.
    pub fn width(&self) -> (r: u32)
        ensures
            r == self@.width,
    {
        self.width
    }

    /// The frame height the container was opened with.
    pub fn height(&self) -> (r: u32)
        ensures
            r == self@.height,
    {
        self.height
    }

    /// Whether the container has been finalized.
    pub fn is_closed(&self) -> (r: bool)
        ensures
            r == self@.closed,
    {
        self.closed
    }
}

} // verus!
