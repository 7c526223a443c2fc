//! The arithmetic of the screen capture: the capture is a quarter of the
//! virtual screen in each direction, in 32-bit pixels.
use vstd::prelude::*;

verus! {

/// The size of the capture of a `width` by `height` virtual screen: a
/// quarter in each direction, and the number of bytes of its pixels.
pub open spec fn capture_geometry_spec(width: i32, height: i32) -> (i32, i32, int) {
    let w = width / 4;
    let h = height / 4;
    (w as i32, h as i32, w * h * 4)
}

/// The capture's width, height and byte length for a virtual screen of
/// `width` by `height` pixels.
pub fn capture_geometry(width: i32, height: i32) -> (r: (i32, i32, usize))
    requires
        0 <= width,
        0 <= height,
        (width / 4) * (height / 4) * 4 <= i32::MAX,
    ensures
        r.0 == capture_geometry_spec(width, height).0,
        r.1 == capture_geometry_spec(width, height).1,
        r.2 == capture_geometry_spec(width, height).2,
{
    let w = width / 4;
    let h = height / 4;
    assert(0 <= w * h) by (nonlinear_arith)
        requires
            0 <= w,
            0 <= h,
    ;
    let bytes = w * h * 4;
    (w, h, bytes as usize)
}

/// Releases the capture buffer: it becomes empty.
pub fn flush_buffer(buffer: &mut Vec<u8>)
    ensures
        final(buffer)@.len() == 0,
{
    buffer.clear();
}

} // verus!
