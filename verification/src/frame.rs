use vstd::prelude::*;

verus! {

/// Pixel layout of a raster video frame.
#[derive(Debug, Clone, Copy, PartialEq, Eq, Structural)]
pub enum VideoFormat {
    Rgba8,
    Rgb8,
    Bgra8,
    Bgr8,
    Yuv420p,
}

/// A raster video frame: dimensions, pixel layout and the raw bytes.
#[derive(Debug, Clone)]
pub struct VideoFrame {
    pub width: u32,
    pub height: u32,
    pub format: VideoFormat,
    pub data: Vec<u8>,
}

/// A vector of `n` zero bytes.
pub fn zeroed_bytes(n: usize) -> (v: Vec<u8>)
    ensures
        v@ == Seq::new(n as nat, |i: int| 0u8),
{
    let v = vec![0u8; n];
    assert(v@ =~= Seq::new(n as nat, |i: int| 0u8));
    v
}

} // verus!

verus! {

/// Position `y * w + x` of pixel (x, y) in a `w`-wide, `h`-high raster is inside
/// the raster and gives back (x, y) by remainder and quotient.
pub proof fn lemma_pixel_index(x: int, y: int, w: int, h: int)
    requires
        0 <= x < w,
        0 <= y < h,
    ensures
        0 <= y * w + x < w * h,
        (y * w + x) % w == x,
        (y * w + x) / w == y,
        (y * w + x) + 1 <= w * h,
{
    assert(0 <= y * w) by (nonlinear_arith)
        requires
            0 <= y,
            0 <= w,
    ;
    assert(y * w + x < w * h) by (nonlinear_arith)
        requires
            0 <= x < w,
            0 <= y < h,
    ;
    vstd::arithmetic::div_mod::lemma_fundamental_div_mod_converse(y * w + x, w, y, x);
}

} // verus!
