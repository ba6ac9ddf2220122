use vstd::prelude::*;

use crate::frame::{Frame, FrameView, PixelLayout};

verus! {

/// The presentation bytes derived from source bytes: for each source
/// pixel `(b, g, r)` the four presentation bytes `(r, g, b, 255)` — the
/// channel order reversed and the alpha channel synthesized as fully
/// opaque.
pub open spec fn rgba_of(src: Seq<u8>) -> Seq<u8> {
    Seq::new((src.len() / 3 * 4) as nat, |j: int| {
        if j % 4 == 0 {
            src[3 * (j / 4) + 2]
        } else if j % 4 == 1 {
            src[3 * (j / 4) + 1]
        } else if j % 4 == 2 {
            src[3 * (j / 4)]
        } else {
            255u8
        }
    })
}

/// The presentation frame derived from a source frame: same dimensions,
/// presentation layout, converted bytes.
pub open spec fn convert_spec(f: FrameView) -> FrameView {
    FrameView {
        width: f.width,
        height: f.height,
        layout: PixelLayout::PresentationRgba,
        data: rgba_of(f.data),
    }
}

/// Pure color conversion, executed once per captured frame, after the
/// frame is persisted in its source layout and before it is distributed.
pub fn convert(f: &Frame) -> (r: Frame)
    requires
        f@.wf(),
        !f@.malformed(),
        f@.layout == PixelLayout::SourceBgr,
    ensures
        r@ == convert_spec(f@),
        r@.wf(),
        !r@.malformed(),
        r.width == f.width,
        r.height == f.height,
{
    let n: usize = f.data.len();
    proof {
        let w = f@.width;
        let h = f@.height;
        assert(f.data@.len() == w * h * 3);
        assert((w * h * 3) / 3 == w * h) by (nonlinear_arith);
    }
    let npix: usize = n / 3;
    let mut out: Vec<u8> = Vec::new();
    let mut i: usize = 0;
    while i < npix
        invariant
            n == f.data@.len(),
            npix == n / 3,
            n == 3 * npix,
            i <= npix,
            out@.len() == 4 * i,
            forall|j: int| 0 <= j < out@.len() ==> out@[j] == rgba_of(f.data@)[j],
        decreases npix - i,
    {
        let b = f.data[3 * i];
        let g = f.data[3 * i + 1];
        let red = f.data[3 * i + 2];
        out.push(red);
        out.push(g);
        out.push(b);
        out.push(255);
        proof {
            let s = f.data@;
            let base = 4 * (i as int);
            assert forall|j: int| 0 <= j < out@.len() implies out@[j] == rgba_of(s)[j] by {
                if j >= base {
                    let c = j - base;
                    assert((4 * (i as int) + c) / 4 == i as int && (4 * (i as int) + c) % 4 == c)
                        by (nonlinear_arith)
                        requires
                            0 <= c < 4,
                            i >= 0,
                    ;
                }
            }
        }
        i = i + 1;
    }
    proof {
        assert(out@ =~= rgba_of(f.data@));
        let w = f@.width;
        let h = f@.height;
        assert(out@.len() == w * h * 4) by {
            assert(4 * ((w * h * 3) / 3) == w * h * 4) by (nonlinear_arith);
        }
    }
    let r = Frame { width: f.width, height: f.height, layout: PixelLayout::PresentationRgba, data: out };
    proof {
        assert(r@ =~= convert_spec(f@));
    }
    r
}

} // verus!
