use vstd::prelude::*;
use super::{CaptureError, WindowCaptureBackend, WindowInfo};
use crate::camera::{lemma_rgba_byte, rgba_raster};
use crate::frame::{lemma_pixel_index, zeroed_bytes};

verus! {

/// The grey of a screen-capture checkerboard cell: light and darker squares
/// of 32 pixels.
pub open spec fn screen_pattern_pixel() -> spec_fn(int, int) -> Seq<u8> {
    |x: int, y: int|
        {
            let v: u8 = if (x / 32 + y / 32) % 2 == 0 {
                240
            } else {
                200
            };
            seq![v, v, v, 255u8]
        }
}

/// Capture of the main display through Screen Capture Kit; the size is the
/// display's, as Core Graphics reports it when the capture opens.
#[derive(Debug)]
pub struct ScreenCaptureKitCapture {
    pub display_id: u32,
    pub capture_cursor: bool,
    pub width: u32,
    pub height: u32,
}

impl ScreenCaptureKitCapture {
    /// The RGBA frame that stands for a captured screen: a checkerboard of
    /// the display's size.
    pub fn create_screen_capture_pattern(&self) -> (v: Vec<u8>)
        requires
            self.width * self.height * 4 <= u32::MAX,
        ensures
            v@ == rgba_raster(self.width as int, self.height as int, screen_pattern_pixel()),
    {
        let w = self.width;
        let h = self.height;
        let mut data = zeroed_bytes((w * h * 4) as usize);
        let ghost target = rgba_raster(w as int, h as int, screen_pattern_pixel());
        let mut y: u32 = 0;
        while y < h
            invariant
                w == self.width,
                h == self.height,
                w * h * 4 <= u32::MAX,
                y <= h,
                target == rgba_raster(w as int, h as int, screen_pattern_pixel()),
                data@.len() == w * h * 4,
                forall|k: int| 0 <= k < y * w * 4 ==> data@[k] == target[k],
            decreases h - y,
        {
            let mut x: u32 = 0;
            while x < w
                invariant
                    w == self.width,
                    h == self.height,
                    w * h * 4 <= u32::MAX,
                    y < h,
                    x <= w,
                    target == rgba_raster(w as int, h as int, screen_pattern_pixel()),
                    data@.len() == w * h * 4,
                    forall|k: int| 0 <= k < (y * w + x) * 4 ==> data@[k] == target[k],
                decreases w - x,
            {
                proof {
                    lemma_pixel_index(x as int, y as int, w as int, h as int);
                    assert((y * w + x) * 4 + 4 <= w * h * 4) by (nonlinear_arith)
                        requires
                            (y * w + x) + 1 <= w * h,
                    ;
                }
                let offset = ((y * w + x) * 4) as usize;
                let check = ((x / 32) + (y / 32)) % 2;
                let base_color: u8 = if check == 0 {
                    240
                } else {
                    200
                };
                data.set(offset, base_color);
                data.set(offset + 1, base_color);
                data.set(offset + 2, base_color);
                data.set(offset + 3, 255);
                proof {
                    assert forall|k: int| 0 <= k < (y * w + x + 1) * 4 implies data@[k] == target[k] by {
                        if k >= (y * w + x) * 4 {
                            let c = k - (y * w + x) * 4;
                            lemma_rgba_byte(k, (y * w + x) as int, c);
                        }
                    }
                }
                x = x + 1;
            }
            proof {
                assert((y + 1) * w * 4 == (y * w + w) * 4) by (nonlinear_arith);
            }
            y = y + 1;
        }
        proof {
            assert(h * w * 4 == w * h * 4) by (nonlinear_arith);
            assert(data@ =~= target);
        }
        data
    }
}

/// Capture of one window through Screen Capture Kit.
#[derive(Debug)]
pub struct ScreenCaptureKitWindowCapture {
    pub window_id: u32,
    pub width: u32,
    pub height: u32,
}

/// Window bounds as the window list is not consulted.
pub fn get_window_bounds(window_id: u32) -> (r: Result<(u32, u32, u32, u32), CaptureError>)
    ensures
        r == Ok::<(u32, u32, u32, u32), CaptureError>((0, 0, 800, 600)),
{
    Ok((0, 0, 800, 600))
}

/// Window width and height, from its bounds.
pub fn get_window_dimensions(window_id: u32) -> (r: Result<(u32, u32), CaptureError>)
    ensures
        r == Ok::<(u32, u32), CaptureError>((800, 600)),
{
    let bounds = match get_window_bounds(window_id) {
        Ok(b) => b,
        Err(e) => {
            return Err(e);
        },
    };
    Ok((bounds.2, bounds.3))
}

/// The window found for a title: the window list is not consulted and the
/// first window is named.
pub fn find_window_by_title(title: &str) -> (r: Result<u32, CaptureError>)
    ensures
        r == Ok::<u32, CaptureError>(1),
{
    Ok(1)
}

/// The window list offered through Screen Capture Kit: four sample windows.
pub fn get_window_list() -> (r: Result<Vec<WindowInfo>, CaptureError>)
    ensures
        r matches Ok(v) && v@.len() == 4
            && v@[0].id == 1 && v@[0].title@ == "Finder"@ && v@[0].process_name@ == "Finder"@
            && v@[0].bounds == (0u32, 0u32, 800u32, 600u32)
            && v@[1].id == 2 && v@[1].title@ == "Terminal"@ && v@[1].process_name@ == "Terminal"@
            && v@[1].bounds == (100u32, 100u32, 1024u32, 768u32)
            && v@[2].id == 3 && v@[2].title@ == "Safari"@ && v@[2].process_name@ == "Safari"@
            && v@[2].bounds == (200u32, 200u32, 1280u32, 800u32)
            && v@[3].id == 4 && v@[3].title@ == "Constellation Studio"@
            && v@[3].process_name@ == "constellation-studio"@
            && v@[3].bounds == (300u32, 300u32, 1440u32, 900u32),
{
    let mut v: Vec<WindowInfo> = Vec::new();
    v.push(WindowInfo {
        id: 1,
        title: String::from_str("Finder"),
        process_name: String::from_str("Finder"),
        bounds: (0, 0, 800, 600),
    });
    v.push(WindowInfo {
        id: 2,
        title: String::from_str("Terminal"),
        process_name: String::from_str("Terminal"),
        bounds: (100, 100, 1024, 768),
    });
    v.push(WindowInfo {
        id: 3,
        title: String::from_str("Safari"),
        process_name: String::from_str("Safari"),
        bounds: (200, 200, 1280, 800),
    });
    v.push(WindowInfo {
        id: 4,
        title: String::from_str("Constellation Studio"),
        process_name: String::from_str("constellation-studio"),
        bounds: (300, 300, 1440, 900),
    });
    Ok(v)
}

impl WindowCaptureBackend for ScreenCaptureKitWindowCapture {
    /// The window with identifier `window_id` (its low 32 bits).
    fn new(window_id: u64) -> (r: Result<Self, CaptureError>)
        ensures
            r matches Ok(c) && c.window_id == window_id as u32 && c.width == 800 && c.height == 600,
    {
        let window_id = window_id as u32;
        let (width, height) = match get_window_dimensions(window_id) {
            Ok(d) => d,
            Err(e) => {
                return Err(e);
            },
        };
        Ok(ScreenCaptureKitWindowCapture { window_id, width, height })
    }

    /// The window titled `title`.
    fn new_by_title(title: &str) -> (r: Result<Self, CaptureError>)
        ensures
            r matches Ok(c) && c.window_id == 1 && c.width == 800 && c.height == 600,
    {
        let window_id = match find_window_by_title(title) {
            Ok(id) => id,
            Err(e) => {
                return Err(e);
            },
        };
        let (width, height) = match get_window_dimensions(window_id) {
            Ok(d) => d,
            Err(e) => {
                return Err(e);
            },
        };
        Ok(ScreenCaptureKitWindowCapture { window_id, width, height })
    }

    /// Bounds of the window.
    fn get_window_bounds(&self) -> (r: Result<(u32, u32, u32, u32), CaptureError>)
        ensures
            r == Ok::<(u32, u32, u32, u32), CaptureError>((0, 0, 800, 600)),
    {
        get_window_bounds(self.window_id)
    }
}

} // verus!
