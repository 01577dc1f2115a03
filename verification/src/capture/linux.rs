use vstd::prelude::*;
use super::CaptureError;

verus! {

/// The number of displays under X11: one per connection.
pub fn get_display_count() -> (r: Result<u32, CaptureError>)
    ensures
        r == Ok::<u32, CaptureError>(1),
{
    Ok(1)
}

/// The four bytes of the pixel at `off`, or nothing when they run past the data.
pub open spec fn pixel_bytes(data: Seq<u8>, off: int) -> Seq<u8> {
    if off + 3 < data.len() {
        data.subrange(off, off + 4)
    } else {
        Seq::empty()
    }
}

/// The pixels `0..x` of row `y`, rows being `bpl` bytes apart.
pub open spec fn row_bytes(data: Seq<u8>, y: nat, x: nat, bpl: nat) -> Seq<u8>
    decreases x,
{
    if x == 0 {
        Seq::empty()
    } else {
        row_bytes(data, y, (x - 1) as nat, bpl) + pixel_bytes(data, y * bpl + (x - 1) * 4)
    }
}

/// Rows `0..y` of `w` pixels each.
pub open spec fn image_bytes(data: Seq<u8>, y: nat, w: nat, bpl: nat) -> Seq<u8>
    decreases y,
{
    if y == 0 {
        Seq::empty()
    } else {
        image_bytes(data, (y - 1) as nat, w, bpl) + row_bytes(data, (y - 1) as nat, w, bpl)
    }
}

/// The pixels of an X11 image of `width` x `height` pixels, rows
/// `bytes_per_line` bytes apart in `data`, as packed BGRA bytes (X11 stores
/// them in that order). Pixels whose bytes run past the data are skipped;
/// an image that does not use four bytes per pixel is refused.
pub fn convert_ximage_to_frame_data(
    width: u32,
    height: u32,
    bits_per_pixel: i32,
    bytes_per_line: usize,
    data: &[u8],
) -> (r: Result<Vec<u8>, CaptureError>)
    requires
        (height as nat) * (bytes_per_line as nat) + (width as nat) * 4 + 3 <= usize::MAX,
    ensures
        bits_per_pixel / 8 != 4 ==> r == Err::<Vec<u8>, CaptureError>(CaptureError::UnsupportedPixelFormat { bits_per_pixel }),
        bits_per_pixel / 8 == 4 ==> (r matches Ok(v) && v@ == image_bytes(data@, height as nat, width as nat, bytes_per_line as nat)),
{
    if bits_per_pixel / 8 != 4 {
        return Err(CaptureError::UnsupportedPixelFormat { bits_per_pixel });
    }
    let mut frame_data: Vec<u8> = Vec::new();
    let mut y: u32 = 0;
    while y < height
        invariant
            y <= height,
            (height as nat) * (bytes_per_line as nat) + (width as nat) * 4 + 3 <= usize::MAX,
            frame_data@ == image_bytes(data@, y as nat, width as nat, bytes_per_line as nat),
        decreases height - y,
    {
        proof {
            vstd::arithmetic::mul::lemma_mul_inequality(y as int, height as int, bytes_per_line as int);
        }
        let src_row_offset: usize = (y as usize) * bytes_per_line;
        let ghost row_start = frame_data@;
        let mut x: u32 = 0;
        while x < width
            invariant
                x <= width,
                y < height,
                src_row_offset == (y as nat) * (bytes_per_line as nat),
                src_row_offset + (width as nat) * 4 + 3 <= usize::MAX,
                frame_data@ == row_start + row_bytes(data@, y as nat, x as nat, bytes_per_line as nat),
            decreases width - x,
        {
            let off: usize = src_row_offset + (x as usize) * 4;
            if off + 3 < data.len() {
                frame_data.push(data[off]);
                frame_data.push(data[off + 1]);
                frame_data.push(data[off + 2]);
                frame_data.push(data[off + 3]);
                proof {
                    assert(pixel_bytes(data@, off as int) =~= seq![data@[off as int], data@[off + 1], data@[off + 2], data@[off + 3]]);
                }
            }
            proof {
                assert(row_start + row_bytes(data@, y as nat, (x + 1) as nat, bytes_per_line as nat)
                    =~= row_start + row_bytes(data@, y as nat, x as nat, bytes_per_line as nat) + pixel_bytes(data@, off as int));
            }
            x = x + 1;
        }
        proof {
            assert(image_bytes(data@, (y + 1) as nat, width as nat, bytes_per_line as nat)
                =~= image_bytes(data@, y as nat, width as nat, bytes_per_line as nat) + row_bytes(data@, y as nat, width as nat, bytes_per_line as nat));
        }
        y = y + 1;
    }
    Ok(frame_data)
}

} // verus!
