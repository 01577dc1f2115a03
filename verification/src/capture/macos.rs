use vstd::prelude::*;
use super::{CaptureError, WindowCaptureBackend, WindowInfo};
use crate::frame::zeroed_bytes;

verus! {

/// Capture of a macOS display through Core Graphics; the size is the
/// display's, as Core Graphics reports it when the capture opens.
#[derive(Debug)]
pub struct MacOSScreenCapture {
    pub display_id: u32,
    pub capture_cursor: bool,
    pub width: u32,
    pub height: u32,
}

impl MacOSScreenCapture {
    /// The frame bytes of a capture: an all-zero RGBA raster of the display's size.
    pub fn convert_cg_image_to_frame_data(&self) -> (v: Vec<u8>)
        requires
            self.width * self.height * 4 <= u32::MAX,
        ensures
            v@ == Seq::new((self.width * self.height * 4) as nat, |i: int| 0u8),
    {
        zeroed_bytes((self.width * self.height * 4) as usize)
    }
}

/// Capture of one macOS window.
#[derive(Debug)]
pub struct MacOSWindowCapture {
    pub window_id: u32,
    pub width: u32,
    pub height: u32,
}

/// Window size as the Core Graphics window list is not consulted: 800 x 600.
pub fn get_window_dimensions(window_id: u32) -> (r: Result<(u32, u32), CaptureError>)
    ensures
        r == Ok::<(u32, u32), CaptureError>((800, 600)),
{
    Ok((800, 600))
}

/// Window bounds as the Core Graphics window list is not consulted.
pub fn get_window_bounds(window_id: u32) -> (r: Result<(u32, u32, u32, u32), CaptureError>)
    ensures
        r == Ok::<(u32, u32, u32, u32), CaptureError>((0, 0, 800, 600)),
{
    Ok((0, 0, 800, 600))
}

/// The window found for a title: the window list is not consulted and the
/// first window is named.
pub fn find_window_by_title(title: &str) -> (r: Result<u32, CaptureError>)
    ensures
        r == Ok::<u32, CaptureError>(1),
{
    Ok(1)
}

/// The window list offered on macOS: one test window.
pub fn get_window_list() -> (r: Result<Vec<WindowInfo>, CaptureError>)
    ensures
        r matches Ok(v) && v@.len() == 1 && v@[0].id == 1 && v@[0].title@ == "Test Window"@
            && v@[0].process_name@ == "Test Process"@ && v@[0].bounds == (0u32, 0u32, 800u32, 600u32),
{
    let mut v: Vec<WindowInfo> = Vec::new();
    v.push(
        WindowInfo {
            id: 1,
            title: String::from_str("Test Window"),
            process_name: String::from_str("Test Process"),
            bounds: (0, 0, 800, 600),
        },
    );
    Ok(v)
}

impl WindowCaptureBackend for MacOSWindowCapture {
    /// The window with identifier `window_id` (its low 32 bits).
    fn new(window_id: u64) -> (r: Result<Self, CaptureError>)
        ensures
            r matches Ok(c) && c.window_id == window_id as u32 && c.width == 800 && c.height == 600,
    {
        let cg_window_id = window_id as u32;
        let (width, height) = match get_window_dimensions(cg_window_id) {
            Ok(d) => d,
            Err(e) => {
                return Err(e);
            },
        };
        Ok(MacOSWindowCapture { window_id: cg_window_id, width, height })
    }

    /// The window titled `title`.
    fn new_by_title(title: &str) -> (r: Result<Self, CaptureError>)
        ensures
            r matches Ok(c) && c.window_id == 1 && c.width == 800 && c.height == 600,
    {
        let window_id = match find_window_by_title(title) {
            Ok(id) => id,
            Err(e) => {
                return Err(e);
            },
        };
        let (width, height) = match get_window_dimensions(window_id) {
            Ok(d) => d,
            Err(e) => {
                return Err(e);
            },
        };
        Ok(MacOSWindowCapture { window_id, width, height })
    }

    /// Bounds of the window.
    fn get_window_bounds(&self) -> (r: Result<(u32, u32, u32, u32), CaptureError>)
        ensures
            r == Ok::<(u32, u32, u32, u32), CaptureError>((0, 0, 800, 600)),
    {
        get_window_bounds(self.window_id)
    }
}

} // verus!
