use vstd::prelude::*;
use crate::geometry::{lemma_mul_le, ClipRect};

verus! {

// Translating a clip rectangle into framebuffer writes. The off-screen
// surface and the mapped framebuffer share coordinates but generally differ
// in row pitch; a clip is flushed row by row, each row one byte range copied
// from the same offset in the surface to the framebuffer.

/// One row's byte range: copy `len` bytes at `offset` in both buffers.
#[derive(Clone, Copy, PartialEq, Eq, Structural, Debug)]
pub struct CopyRange {
    pub offset: u64,
    pub len: u64,
}

/// Row `i` of a clip: the range starts at the row's base plus the clip's
/// column offset and spans the clip's width, in bytes of `cpp` per pixel.
pub open spec fn row_range(clip: ClipRect, pitch: u32, cpp: u32, i: int) -> CopyRange {
    CopyRange {
        offset: ((clip.y1 + i) * pitch + clip.x1 * cpp) as u64,
        len: ((clip.x2 - clip.x1) * cpp) as u64,
    }
}

/// The ranges of the first `k` rows of a clip.
pub open spec fn spec_copy_ranges(clip: ClipRect, pitch: u32, cpp: u32, k: int) -> Seq<CopyRange>
    decreases k,
{
    if k <= 0 {
        Seq::empty()
    } else {
        spec_copy_ranges(clip, pitch, cpp, k - 1) + seq![row_range(clip, pitch, cpp, k - 1)]
    }
}

/// The byte ranges one clip rectangle dirties: the rectangle's vertical
/// extent iterated, each row's byte range respecting the row pitch.
pub fn clip_copy_ranges(clip: &ClipRect, pitch: u32, cpp: u32) -> (r: Vec<CopyRange>)
    requires
        clip.x1 <= clip.x2,
        clip.y1 <= clip.y2,
    ensures
        r@ == spec_copy_ranges(*clip, pitch, cpp, clip.y2 - clip.y1),
{
    let rows = (clip.y2 - clip.y1) as u64;
    proof {
        lemma_mul_le(clip.y1 as int, pitch as int, 0xFFFF, 0xFFFF_FFFF);
        lemma_mul_le(clip.x1 as int, cpp as int, 0xFFFF, 0xFFFF_FFFF);
        lemma_mul_le((clip.x2 - clip.x1) as int, cpp as int, 0xFFFF, 0xFFFF_FFFF);
    }
    let base = (clip.y1 as u64) * (pitch as u64) + (clip.x1 as u64) * (cpp as u64);
    let len = ((clip.x2 - clip.x1) as u64) * (cpp as u64);
    let mut out: Vec<CopyRange> = Vec::new();
    let mut i: u64 = 0;
    while i < rows
        invariant
            i <= rows,
            rows == clip.y2 - clip.y1,
            base == clip.y1 * pitch + clip.x1 * cpp,
            len == (clip.x2 - clip.x1) * cpp,
            out@ == spec_copy_ranges(*clip, pitch, cpp, i as int),
        decreases rows - i,
    {
        proof {
            lemma_mul_le(clip.y1 as int, pitch as int, 0xFFFF, 0xFFFF_FFFF);
            lemma_mul_le(clip.x1 as int, cpp as int, 0xFFFF, 0xFFFF_FFFF);
            lemma_mul_le(i as int, pitch as int, 0xFFFF, 0xFFFF_FFFF);
            lemma_mul_le((clip.y1 + i) as int, pitch as int, 0x1_FFFF, 0xFFFF_FFFF);
            assert((clip.y1 + i) * (pitch as int) == clip.y1 * (pitch as int) + i * (pitch as int))
                by (nonlinear_arith);
        }
        out.push(CopyRange { offset: base + i * (pitch as u64), len });
        proof {
            assert(out@ =~= spec_copy_ranges(*clip, pitch, cpp, i as int + 1));
        }
        i += 1;
    }
    out
}

} // verus!
