use vstd::prelude::*;
use crate::frame::{VideoFormat, VideoFrame};

verus! {

/// Screen capture on Windows: the display it reads, whether the cursor is
/// drawn, and the display's size in pixels.
#[derive(Debug, Clone)]
pub struct WindowsScreenCapture {
    pub display_id: u32,
    pub capture_cursor: bool,
    pub width: u32,
    pub height: u32,
}

/// Window capture on Windows: the window's handle and its size in pixels.
#[derive(Debug, Clone)]
pub struct WindowsWindowCapture {
    pub window_handle: u64,
    pub width: u32,
    pub height: u32,
}

/// The number of displays given the system's monitor count: that count where
/// it is positive, else a single display.
pub fn display_count_from_metric(count: i32) -> (n: u32)
    ensures
        count > 0 ==> n == count,
        count <= 0 ==> n == 1,
{
    if count > 0 {
        count as u32
    } else {
        1
    }
}

/// The size of a display: the primary screen's metrics for display 0, and
/// 1920 x 1080 for any other display.
pub fn display_dimensions(display_id: u32, primary_width: i32, primary_height: i32) -> (d: (u32, u32))
    ensures
        display_id == 0 ==> d == (primary_width as u32, primary_height as u32),
        display_id != 0 ==> d == (1920u32, 1080u32),
{
    if display_id == 0 {
        (primary_width as u32, primary_height as u32)
    } else {
        (1920, 1080)
    }
}

/// The bounds (x, y, width, height) of a rectangle given by its edges, each
/// taken as an unsigned 32-bit value.
pub fn rect_bounds(left: i32, top: i32, right: i32, bottom: i32) -> (b: (u32, u32, u32, u32))
    requires
        i32::MIN <= right - left <= i32::MAX,
        i32::MIN <= bottom - top <= i32::MAX,
    ensures
        b == (left as u32, top as u32, (right - left) as u32, (bottom - top) as u32),
{
    (left as u32, top as u32, (right - left) as u32, (bottom - top) as u32)
}

/// Whether an enumerated window is offered for capture: it is visible and
/// its title is neither empty nor the desktop shell's "Program Manager".
pub open spec fn spec_is_listed_window(visible: bool, title: Seq<char>) -> bool {
    visible && title.len() > 0 && title != "Program Manager"@
}

pub fn is_listed_window(visible: bool, title: &str) -> (b: bool)
    ensures
        b == spec_is_listed_window(visible, title@),
{
    if !visible {
        return false;
    }
    let is_shell = crate::text::same_text(title, "Program Manager");
    title.unicode_len() > 0 && !is_shell
}

impl WindowsScreenCapture {
    /// A capture of `display_id` whose size is `dims`.
    pub fn new(display_id: u32, capture_cursor: bool, dims: (u32, u32)) -> (c: Self)
        ensures
            c.display_id == display_id,
            c.capture_cursor == capture_cursor,
            c.width == dims.0,
            c.height == dims.1,
    {
        WindowsScreenCapture { display_id, capture_cursor, width: dims.0, height: dims.1 }
    }

    /// The frame made of the pixels read from the display: BGRA at the display's size.
    pub fn frame_from_pixels(&self, data: Vec<u8>) -> (f: VideoFrame)
        ensures
            f.width == self.width,
            f.height == self.height,
            f.format == VideoFormat::Bgra8,
            f.data@ == data@,
    {
        VideoFrame { width: self.width, height: self.height, format: VideoFormat::Bgra8, data }
    }
}

impl WindowsWindowCapture {
    /// A capture of the window `window_handle` whose size is `dims`.
    pub fn new(window_handle: u64, dims: (u32, u32)) -> (c: Self)
        ensures
            c.window_handle == window_handle,
            c.width == dims.0,
            c.height == dims.1,
    {
        WindowsWindowCapture { window_handle, width: dims.0, height: dims.1 }
    }

    /// The frame made of the pixels read from the window: BGRA at the window's size.
    pub fn frame_from_pixels(&self, data: Vec<u8>) -> (f: VideoFrame)
        ensures
            f.width == self.width,
            f.height == self.height,
            f.format == VideoFormat::Bgra8,
            f.data@ == data@,
    {
        VideoFrame { width: self.width, height: self.height, format: VideoFormat::Bgra8, data }
    }
}

} // verus!
