use vstd::prelude::*;
use crate::text::{decimal, same_text};

pub mod linux;
pub mod macos;
pub mod screen_capture_kit;
pub mod screen_capture;
pub mod window_capture;
pub mod windows;

verus! {

/// Why a capture step failed.
#[derive(Debug, Clone)]
pub enum CaptureError {
    /// The image does not hold four bytes per pixel.
    UnsupportedPixelFormat { bits_per_pixel: i32 },
    /// No window has the given title.
    WindowNotFound { title: String },
    /// A window capture names neither a title nor an identifier.
    NoWindowSelected,
}

/// The decimal text of a signed number.
pub open spec fn signed_decimal(n: int) -> Seq<char> {
    if n < 0 {
        "-"@ + decimal((-n) as nat)
    } else {
        decimal(n as nat)
    }
}

impl CaptureError {
    /// The text of the error.
    pub open spec fn spec_message(&self) -> Seq<char> {
        match self {
            CaptureError::UnsupportedPixelFormat { bits_per_pixel } => "Unsupported pixel format: "@
                + signed_decimal(*bits_per_pixel as int) + " bits per pixel"@,
            CaptureError::WindowNotFound { title } => "Window not found: "@ + title@,
            CaptureError::NoWindowSelected => "Either window_title or window_id must be specified"@,
        }
    }
}

/// A window on screen; bounds are x, y, width, height.
#[derive(Debug)]
pub struct WindowInfo {
    pub id: u64,
    pub title: String,
    pub process_name: String,
    pub bounds: (u32, u32, u32, u32),
}

/// Capture of a whole display, implemented by each platform.
pub trait ScreenCaptureBackend: Sized {
    /// Open display `display_id`.
    fn new(display_id: u32, capture_cursor: bool) -> Result<Self, CaptureError>;

    /// Bounds of the display: x, y, width, height.
    fn get_display_bounds(&self, display_id: u32) -> Result<(u32, u32, u32, u32), CaptureError>;
}

/// Capture of one window, implemented by each platform.
pub trait WindowCaptureBackend: Sized {
    /// Open the window with identifier `window_id`.
    fn new(window_id: u64) -> Result<Self, CaptureError>;

    /// Open the window titled `title`.
    fn new_by_title(title: &str) -> Result<Self, CaptureError>;

    /// Bounds of the window: x, y, width, height.
    fn get_window_bounds(&self) -> Result<(u32, u32, u32, u32), CaptureError>;
}

/// The number of displays: X11 serves one display per connection.
pub fn get_display_count() -> (r: Result<u32, CaptureError>)
    ensures
        r == Ok::<u32, CaptureError>(1),
{
    linux::get_display_count()
}

/// The identifier of the first window titled `title` in `windows`.
pub fn find_window_by_title(windows: &Vec<WindowInfo>, title: &str) -> (r: Result<u64, CaptureError>)
    ensures
        match r {
            Ok(id) => exists|k: int|
                0 <= k < windows@.len() && (#[trigger] windows@[k]).title@ == title@ && windows@[k].id == id
                    && forall|j: int| 0 <= j < k ==> (#[trigger] windows@[j]).title@ != title@,
            Err(e) => (e matches CaptureError::WindowNotFound { title: t } && t@ == title@)
                && forall|j: int| 0 <= j < windows@.len() ==> (#[trigger] windows@[j]).title@ != title@,
        },
{
    let n = windows.len();
    let mut i: usize = 0;
    while i < n
        invariant
            n == windows@.len(),
            i <= n,
            forall|j: int| 0 <= j < i ==> (#[trigger] windows@[j]).title@ != title@,
        decreases n - i,
    {
        if same_text(windows[i].title.as_str(), title) {
            assert(windows@[i as int].title@ == title@);
            return Ok(windows[i].id);
        }
        i = i + 1;
    }
    Err(CaptureError::WindowNotFound { title: title.to_string() })
}

} // verus!
