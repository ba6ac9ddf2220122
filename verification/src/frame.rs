use vstd::prelude::*;

verus! {

/// Pixel layout of a frame's byte buffer.
#[derive(Clone, Copy, PartialEq, Eq, Structural, Debug)]
pub enum PixelLayout {
    /// Source-native three-channel layout: blue, green, red per pixel.
    SourceBgr,
    /// Presentation four-channel layout: red, green, blue, alpha per pixel.
    PresentationRgba,
}

impl PixelLayout {
    /// Bytes that one pixel occupies in this layout.
    pub open spec fn bytes_per_pixel(self) -> int {
        match self {
            PixelLayout::SourceBgr => 3,
            PixelLayout::PresentationRgba => 4,
        }
    }
}

/// Mathematical value of a frame: the dimensions as the source reported
/// them, the pixel layout, and the buffer contents.
#[verifier::ext_equal]
pub ghost struct FrameView {
    pub width: int,
    pub height: int,
    pub layout: PixelLayout,
    pub data: Seq<u8>,
}

impl FrameView {
    /// A frame is malformed when the source reported a non-positive
    /// width or height. Such a frame is skipped by the pipeline: it is
    /// never persisted and never distributed.
    pub open spec fn malformed(self) -> bool {
        self.width <= 0 || self.height <= 0
    }

    /// A well-formed frame's buffer holds exactly `width * height` pixels
    /// in its layout. A malformed frame carries no usable image, so
    /// nothing is required of its buffer.
    pub open spec fn wf(self) -> bool {
        !self.malformed() ==> self.data.len() == self.width * self.height
            * self.layout.bytes_per_pixel()
    }
}

/// One captured image: an immutable snapshot of pixel data. The
/// dimensions are kept as the source reported them, so a device fault
/// that reports a non-positive dimension is representable and can be
/// skipped rather than written.
#[derive(Debug)]
pub struct Frame {
    pub width: i64,
    pub height: i64,
    pub layout: PixelLayout,
    pub data: Vec<u8>,
}

impl View for Frame {
    type V = FrameView;

    open spec fn view(&self) -> FrameView {
        FrameView {
            width: self.width as int,
            height: self.height as int,
            layout: self.layout,
            data: self.data@,
        }
    }
}

impl Frame {
    /// Executable form of `FrameView::malformed`.
    pub fn is_malformed(&self) -> (r: bool)
        ensures
            r == self@.malformed(),
    {
        self.width <= 0 || self.height <= 0
    }
}

} // verus!
