//! The integer side of the background blur: reusable buffers and the pixel
//! addressing of the two separable passes. The Gaussian weights themselves are
//! floating-point and are computed by the caller.
use vstd::prelude::*;

verus! {

/// Bytes per pixel (blue, green, red, alpha).
pub const BYTES_PER_PIXEL: usize = 4;

/// The working buffers of the blur, kept between runs to avoid reallocation.
#[derive(Debug)]
pub struct BlurBuffers {
    /// The result of the horizontal pass.
    pub temp: Vec<u8>,
    /// The result of the vertical pass.
    pub dst: Vec<u8>,
}

impl BlurBuffers {
    /// Empty buffers.
    pub fn new() -> (r: BlurBuffers)
        ensures
            r.temp@.len() == 0,
            r.dst@.len() == 0,
    {
        BlurBuffers { temp: Vec::new(), dst: Vec::new() }
    }

    /// Makes both buffers at least `len` bytes long, keeping what they hold and
    /// filling any new room with zeros.
    pub fn reserve_for(&mut self, len: usize)
        ensures
            grown(old(self).temp@, final(self).temp@, len),
            grown(old(self).dst@, final(self).dst@, len),
    {
        grow_zeroed(&mut self.temp, len);
        grow_zeroed(&mut self.dst, len);
    }
}

/// Whether `new` is `old` made at least `len` long: `old` unchanged when long
/// enough, else extended to exactly `len` with zeros.
pub open spec fn grown(old: Seq<u8>, new: Seq<u8>, len: usize) -> bool {
    if old.len() >= len {
        new == old
    } else {
        &&& new.len() == len
        &&& new.subrange(0, old.len() as int) == old
        &&& forall|i: int| old.len() <= i < len ==> new[i] == 0
    }
}

/// Makes a buffer at least `len` bytes long, zero-filling new room.
pub fn grow_zeroed(buf: &mut Vec<u8>, len: usize)
    ensures
        grown(old(buf)@, final(buf)@, len),
{
    if buf.len() < len {
        buf.resize(len, 0u8);
    }
}

/// Releases the blur's buffers: both become empty.
pub fn flush_buffers(buffers: &mut BlurBuffers)
    ensures
        final(buffers).temp@.len() == 0,
        final(buffers).dst@.len() == 0,
{
    buffers.temp.clear();
    buffers.dst.clear();
}

/// `v` brought into `[lo, hi]`.
pub open spec fn clamp_int(v: int, lo: int, hi: int) -> int {
    if v < lo { lo } else if v > hi { hi } else { v }
}

/// The coordinate sampled by tap `k` of a kernel of the given radius centred on
/// `pos`, along an axis of `len` pixels: `pos + k - radius`, clamped to the
/// edges (edge pixels are repeated).
pub fn sample_index(pos: usize, k: usize, radius: usize, len: usize) -> (r: usize)
    requires
        len > 0,
        pos + k <= isize::MAX,
        radius <= isize::MAX,
    ensures
        r == clamp_int(pos + k - radius, 0, len - 1),
{
    let reach = pos + k;
    if reach < radius {
        0
    } else if reach - radius > len - 1 {
        len - 1
    } else {
        reach - radius
    }
}

/// The byte offset of pixel `(x, y)` in an image `width` pixels wide.
pub fn pixel_offset(x: usize, y: usize, width: usize) -> (r: usize)
    requires
        (y * width + x) * BYTES_PER_PIXEL <= usize::MAX,
    ensures
        r == (y * width + x) * BYTES_PER_PIXEL,
{
    assert(y * width <= y * width + x);
    (y * width + x) * BYTES_PER_PIXEL
}

} // verus!
