use vstd::prelude::*;
use crate::frame::{VideoFrame, VideoFormat, lemma_pixel_index};

verus! {

/// `v` held to the byte range 0..=255.
pub open spec fn clamp_u8(v: int) -> u8 {
    if v < 0 {
        0
    } else if v > 255 {
        255
    } else {
        v as u8
    }
}

/// Luma of an RGB colour (ITU-R BT.601, studio range, 8-bit fixed point).
pub open spec fn rgb_to_y(r: u8, g: u8, b: u8) -> u8 {
    ((66 * r + 129 * g + 25 * b + 128) / 256 + 16) as u8
}

/// Blue-difference chroma of an RGB colour (BT.601, studio range).
pub open spec fn rgb_to_u(r: u8, g: u8, b: u8) -> u8 {
    ((-38 * r - 74 * g + 112 * b + 128) / 256 + 128) as u8
}

/// Red-difference chroma of an RGB colour (BT.601, studio range).
pub open spec fn rgb_to_v(r: u8, g: u8, b: u8) -> u8 {
    ((112 * r - 94 * g - 18 * b + 128) / 256 + 128) as u8
}

/// Red of a studio-range BT.601 YUV colour.
pub open spec fn yuv_to_r(y: u8, u: u8, v: u8) -> u8 {
    clamp_u8((298 * (y - 16) + 409 * (v - 128) + 128) / 256)
}

/// Green of a studio-range BT.601 YUV colour.
pub open spec fn yuv_to_g(y: u8, u: u8, v: u8) -> u8 {
    clamp_u8((298 * (y - 16) - 100 * (u - 128) - 208 * (v - 128) + 128) / 256)
}

/// Blue of a studio-range BT.601 YUV colour.
pub open spec fn yuv_to_b(y: u8, u: u8, v: u8) -> u8 {
    clamp_u8((298 * (y - 16) + 516 * (u - 128) + 128) / 256)
}

/// Byte `k` of `d`, or zero past its end.
pub open spec fn byte_at(d: Seq<u8>, k: int) -> u8 {
    if 0 <= k < d.len() {
        d[k]
    } else {
        0
    }
}

/// Red, green, blue and alpha of pixel (x, y) of a frame in a packed RGB
/// layout (alpha 255 where the layout has none).
pub open spec fn packed_rgba(f: VideoFrame, x: int, y: int) -> (u8, u8, u8, u8) {
    let d = f.data@;
    let p = y * f.width + x;
    match f.format {
        VideoFormat::Rgba8 => (byte_at(d, 4 * p), byte_at(d, 4 * p + 1), byte_at(d, 4 * p + 2), byte_at(d, 4 * p + 3)),
        VideoFormat::Rgb8 => (byte_at(d, 3 * p), byte_at(d, 3 * p + 1), byte_at(d, 3 * p + 2), 255u8),
        VideoFormat::Bgra8 => (byte_at(d, 4 * p + 2), byte_at(d, 4 * p + 1), byte_at(d, 4 * p), byte_at(d, 4 * p + 3)),
        VideoFormat::Bgr8 => (byte_at(d, 3 * p + 2), byte_at(d, 3 * p + 1), byte_at(d, 3 * p), 255u8),
        VideoFormat::Yuv420p => (0u8, 0u8, 0u8, 255u8),
    }
}

/// Y, U and V of pixel (x, y) of a planar YUV 4:2:0 frame: a full-size Y
/// plane, then U and V planes of (width / 2) x (height / 2) samples.
pub open spec fn planar_yuv(f: VideoFrame, x: int, y: int) -> (u8, u8, u8) {
    let d = f.data@;
    let w = f.width as int;
    let h = f.height as int;
    let c = (y / 2) * (w / 2) + x / 2;
    (byte_at(d, y * w + x), byte_at(d, w * h + c), byte_at(d, w * h + (w / 2) * (h / 2) + c))
}

/// Red, green, blue and alpha of pixel (x, y) of any frame.
pub open spec fn frame_rgba(f: VideoFrame, x: int, y: int) -> (u8, u8, u8, u8) {
    if f.format is Yuv420p {
        let (yy, u, v) = planar_yuv(f, x, y);
        (yuv_to_r(yy, u, v), yuv_to_g(yy, u, v), yuv_to_b(yy, u, v), 255u8)
    } else {
        packed_rgba(f, x, y)
    }
}

/// Y, U and V of pixel (x, y) of any frame.
pub open spec fn frame_yuv(f: VideoFrame, x: int, y: int) -> (u8, u8, u8) {
    if f.format is Yuv420p {
        planar_yuv(f, x, y)
    } else {
        let (r, g, b, a) = packed_rgba(f, x, y);
        (rgb_to_y(r, g, b), rgb_to_u(r, g, b), rgb_to_v(r, g, b))
    }
}

/// Byte `k` of `d`, or zero past its end.
pub fn byte_of(d: &Vec<u8>, k: u64) -> (b: u8)
    ensures
        b == byte_at(d@, k as int),
{
    if k < d.len() as u64 {
        d[k as usize]
    } else {
        0
    }
}

/// The luma of an RGB colour.
pub fn luma(r: u8, g: u8, b: u8) -> (y: u8)
    ensures
        y == rgb_to_y(r, g, b),
{
    let n: u32 = 66 * (r as u32) + 129 * (g as u32) + 25 * (b as u32) + 128;
    assert(n / 256 <= 219) by (nonlinear_arith)
        requires
            n == 66 * r + 129 * g + 25 * b + 128,
            r <= 255,
            g <= 255,
            b <= 255,
    ;
    (n / 256 + 16) as u8
}

/// The blue-difference chroma of an RGB colour.
pub fn chroma_u(r: u8, g: u8, b: u8) -> (u: u8)
    ensures
        u == rgb_to_u(r, g, b),
{
    let n: u32 = 112 * (b as u32) + 32896 - 38 * (r as u32) - 74 * (g as u32);
    let q: u32 = n / 256;
    assert(q <= 240 && q as int == (-38 * r - 74 * g + 112 * b + 128) / 256 + 128) by (nonlinear_arith)
        requires
            n == 112 * b + 32896 - 38 * r - 74 * g,
            q == n / 256,
            r <= 255,
            g <= 255,
            b <= 255,
    ;
    q as u8
}

/// The red-difference chroma of an RGB colour.
pub fn chroma_v(r: u8, g: u8, b: u8) -> (v: u8)
    ensures
        v == rgb_to_v(r, g, b),
{
    let n: u32 = 112 * (r as u32) + 32896 - 94 * (g as u32) - 18 * (b as u32);
    let q: u32 = n / 256;
    assert(q <= 240 && q as int == (112 * r - 94 * g - 18 * b + 128) / 256 + 128) by (nonlinear_arith)
        requires
            n == 112 * r + 32896 - 94 * g - 18 * b,
            q == n / 256,
            r <= 255,
            g <= 255,
            b <= 255,
    ;
    q as u8
}

/// `q - 512` held to 0..=255.
fn clamp_shifted(q: u32) -> (c: u8)
    ensures
        c == clamp_u8(q - 512),
{
    if q < 512 {
        0
    } else if q - 512 > 255 {
        255
    } else {
        (q - 512) as u8
    }
}

/// Red, green and blue of a YUV colour.
pub fn yuv_rgb(y: u8, u: u8, v: u8) -> (c: (u8, u8, u8))
    ensures
        c == (yuv_to_r(y, u, v), yuv_to_g(y, u, v), yuv_to_b(y, u, v)),
{
    let nr: u32 = 298 * (y as u32) + 409 * (v as u32) + 74080;
    let ng: u32 = 298 * (y as u32) + 165856 - 100 * (u as u32) - 208 * (v as u32);
    let nb: u32 = 298 * (y as u32) + 516 * (u as u32) + 60384;
    let qr: u32 = nr / 256;
    let qg: u32 = ng / 256;
    let qb: u32 = nb / 256;
    assert(qr - 512 == (298 * (y - 16) + 409 * (v - 128) + 128) / 256) by (nonlinear_arith)
        requires
            nr == 298 * y + 409 * v + 74080,
            qr == nr / 256,
    ;
    assert(qg - 512 == (298 * (y - 16) - 100 * (u - 128) - 208 * (v - 128) + 128) / 256) by (nonlinear_arith)
        requires
            ng == 298 * y + 165856 - 100 * u - 208 * v,
            qg == ng / 256,
    ;
    assert(qb - 512 == (298 * (y - 16) + 516 * (u - 128) + 128) / 256) by (nonlinear_arith)
        requires
            nb == 298 * y + 516 * u + 60384,
            qb == nb / 256,
    ;
    (clamp_shifted(qr), clamp_shifted(qg), clamp_shifted(qb))
}

/// Red, green, blue and alpha of pixel (x, y) of `f`, a frame in a packed layout.
fn packed_of(f: &VideoFrame, x: u64, y: u64) -> (c: (u8, u8, u8, u8))
    requires
        x < f.width,
        y < f.height,
        f.width * f.height <= u32::MAX,
    ensures
        c == packed_rgba(*f, x as int, y as int),
{
    let w = f.width as u64;
    let h = f.height as u64;
    proof {
        lemma_pixel_index(x as int, y as int, w as int, h as int);
    }
    let p: u64 = y * w + x;
    match f.format {
        VideoFormat::Rgba8 => (byte_of(&f.data, 4 * p), byte_of(&f.data, 4 * p + 1), byte_of(&f.data, 4 * p + 2), byte_of(&f.data, 4 * p + 3)),
        VideoFormat::Rgb8 => (byte_of(&f.data, 3 * p), byte_of(&f.data, 3 * p + 1), byte_of(&f.data, 3 * p + 2), 255),
        VideoFormat::Bgra8 => (byte_of(&f.data, 4 * p + 2), byte_of(&f.data, 4 * p + 1), byte_of(&f.data, 4 * p), byte_of(&f.data, 4 * p + 3)),
        VideoFormat::Bgr8 => (byte_of(&f.data, 3 * p + 2), byte_of(&f.data, 3 * p + 1), byte_of(&f.data, 3 * p), 255),
        VideoFormat::Yuv420p => (0, 0, 0, 255),
    }
}

/// Y, U and V of pixel (x, y) of `f`, read as planar YUV 4:2:0.
fn planar_of(f: &VideoFrame, x: u64, y: u64) -> (c: (u8, u8, u8))
    requires
        x < f.width,
        y < f.height,
        f.width * f.height <= u32::MAX,
    ensures
        c == planar_yuv(*f, x as int, y as int),
{
    let w = f.width as u64;
    let h = f.height as u64;
    proof {
        lemma_pixel_index(x as int, y as int, w as int, h as int);
        assert((y / 2) * (w / 2) + x / 2 <= w * h) by (nonlinear_arith)
            requires
                x < w,
                y < h,
        ;
        assert((w / 2) * (h / 2) <= w * h) by (nonlinear_arith);
    }
    let c: u64 = (y / 2) * (w / 2) + x / 2;
    let q: u64 = (w / 2) * (h / 2);
    let wh: u64 = w * h;
    (byte_of(&f.data, y * w + x), byte_of(&f.data, wh + c), byte_of(&f.data, wh + q + c))
}

/// Red, green, blue and alpha of pixel (x, y) of `f`.
pub fn rgba_of(f: &VideoFrame, x: u64, y: u64) -> (c: (u8, u8, u8, u8))
    requires
        x < f.width,
        y < f.height,
        f.width * f.height <= u32::MAX,
    ensures
        c == frame_rgba(*f, x as int, y as int),
{
    match f.format {
        VideoFormat::Yuv420p => {
            let (yy, u, v) = planar_of(f, x, y);
            let (r, g, b) = yuv_rgb(yy, u, v);
            (r, g, b, 255)
        },
        _ => packed_of(f, x, y),
    }
}

/// Y, U and V of pixel (x, y) of `f`.
pub fn yuv_of(f: &VideoFrame, x: u64, y: u64) -> (c: (u8, u8, u8))
    requires
        x < f.width,
        y < f.height,
        f.width * f.height <= u32::MAX,
    ensures
        c == frame_yuv(*f, x as int, y as int),
{
    match f.format {
        VideoFormat::Yuv420p => planar_of(f, x, y),
        _ => {
            let (r, g, b, a) = packed_of(f, x, y);
            (luma(r, g, b), chroma_u(r, g, b), chroma_v(r, g, b))
        },
    }
}

} // verus!
