use vstd::prelude::*;
use crate::frame::{VideoFormat, VideoFrame, zeroed_bytes, lemma_pixel_index};

verus! {

/// Why a camera refused a request.
#[derive(Debug, Clone, Copy, PartialEq, Eq, Structural)]
pub enum CameraError {
    /// A frame was requested from a camera that is not started.
    NotActive,
}

/// A camera device as enumerated by a platform backend.
#[derive(Debug, Clone)]
pub struct CameraDeviceInfo {
    pub index: u32,
    pub name: String,
    pub description: String,
    pub vendor_id: Option<String>,
    pub product_id: Option<String>,
}

/// The numeric camera parameters a backend reads from its parameter map:
/// the entries "width", "height" and "fps" where they hold unsigned integers.
#[derive(Debug, Clone, Copy, PartialEq, Eq, Structural)]
pub struct CameraParameters {
    pub width: Option<u64>,
    pub height: Option<u64>,
    pub fps: Option<u64>,
}

/// An RGBA raster of `w` x `h` pixels whose pixel (x, y) has the four bytes `px(x, y)`,
/// rows stored one after another.
pub open spec fn rgba_raster(w: int, h: int, px: spec_fn(int, int) -> Seq<u8>) -> Seq<u8> {
    Seq::new((w * h * 4) as nat, |k: int| px((k / 4) % w, (k / 4) / w)[k % 4])
}

/// Byte `4 * p + c` of a raster belongs to pixel `p`, channel `c`.
pub proof fn lemma_rgba_byte(k: int, p: int, c: int)
    requires
        k == 4 * p + c,
        0 <= c < 4,
    ensures
        k / 4 == p,
        k % 4 == c,
{
    vstd::arithmetic::div_mod::lemma_fundamental_div_mod_converse(k, 4, p, c);
}

/// A parameter value as the backend stores it: the low 32 bits.
pub open spec fn param_u32(v: u64) -> u32 {
    (v % 0x1_0000_0000) as u32
}

/// Frame geometry fields after applying `params` to (width, height, fps).
pub open spec fn apply_params(params: CameraParameters, w: u32, h: u32, fps: u32) -> (u32, u32, u32) {
    (
        match params.width {
            Some(v) => param_u32(v),
            None => w,
        },
        match params.height {
            Some(v) => param_u32(v),
            None => h,
        },
        match params.fps {
            Some(v) => param_u32(v),
            None => fps,
        },
    )
}

/// The low 32 bits of a parameter value.
fn low_u32(v: u64) -> (r: u32)
    ensures
        r == param_u32(v),
{
    (v % 0x1_0000_0000) as u32
}

/// The colour of bar `i` of the eight-bar test pattern.
pub open spec fn color_bar(i: int) -> (u8, u8, u8) {
    if i == 0 {
        (255, 255, 255)
    } else if i == 1 {
        (255, 255, 0)
    } else if i == 2 {
        (0, 255, 255)
    } else if i == 3 {
        (0, 255, 0)
    } else if i == 4 {
        (255, 0, 255)
    } else if i == 5 {
        (255, 0, 0)
    } else if i == 6 {
        (0, 0, 255)
    } else {
        (0, 0, 0)
    }
}

fn color_bar_rgb(i: u32) -> (c: (u8, u8, u8))
    ensures
        c == color_bar(i as int),
{
    if i == 0 {
        (255, 255, 255)
    } else if i == 1 {
        (255, 255, 0)
    } else if i == 2 {
        (0, 255, 255)
    } else if i == 3 {
        (0, 255, 0)
    } else if i == 4 {
        (255, 0, 255)
    } else if i == 5 {
        (255, 0, 0)
    } else if i == 6 {
        (0, 0, 255)
    } else {
        (0, 0, 0)
    }
}

/// Pixel (x, y) of the colour-bar pattern of a `w`-wide frame: eight bars of
/// `w / 8` pixels, the last bar extending to the right edge.
pub open spec fn color_bars_pixel(w: int) -> spec_fn(int, int) -> Seq<u8> {
    |x: int, y: int|
        {
            let i = if x / (w / 8) < 7 {
                x / (w / 8)
            } else {
                7
            };
            let c = color_bar(i);
            seq![c.0, c.1, c.2, 255u8]
        }
}

/// Pixel (x, y) of the gradient pattern: red rises with x, green with y.
pub open spec fn gradient_pixel(w: int, h: int) -> spec_fn(int, int) -> Seq<u8> {
    |x: int, y: int| seq![(x * 255 / w) as u8, (y * 255 / h) as u8, 128u8, 255u8]
}

/// Pixel (x, y) of the checkerboard pattern of 32-pixel squares.
pub open spec fn checker_pixel() -> spec_fn(int, int) -> Seq<u8> {
    |x: int, y: int|
        {
            let v: u8 = if (x / 32 + y / 32) % 2 == 0 {
                255
            } else {
                128
            };
            seq![v, v, v, 255u8]
        }
}

/// The eight-bar colour pattern as an RGBA frame of `w` x `h` pixels: white,
/// yellow, cyan, green, magenta, red, blue and black bars `w / 8` pixels
/// wide, the last one reaching the right edge.
pub fn color_bars_frame(w: u32, h: u32) -> (f: VideoFrame)
    requires
        w * h * 4 <= u32::MAX,
        h > 0 ==> w == 0 || w >= 8,
    ensures
        f.width == w,
        f.height == h,
        f.format == VideoFormat::Rgba8,
        f.data@ == rgba_raster(w as int, h as int, color_bars_pixel(w as int)),
{
    let frame_size = (w * h * 4) as usize;
    let mut data = zeroed_bytes(frame_size);
    let ghost target = rgba_raster(w as int, h as int, color_bars_pixel(w as int));
    let bar_width = w / 8;
    let mut y: u32 = 0;
    while y < h
        invariant
            w * h * 4 <= u32::MAX,
            h > 0 ==> w == 0 || w >= 8,
            bar_width == w / 8,
            y <= h,
            target == rgba_raster(w as int, h as int, color_bars_pixel(w as int)),
            data@.len() == w * h * 4,
            forall|k: int| 0 <= k < y * w * 4 ==> data@[k] == target[k],
        decreases h - y,
    {
        let mut x: u32 = 0;
        while x < w
            invariant
                w * h * 4 <= u32::MAX,
                w == 0 || w >= 8,
                bar_width == w / 8,
                y < h,
                x <= w,
                target == rgba_raster(w as int, h as int, color_bars_pixel(w as int)),
                data@.len() == w * h * 4,
                forall|k: int| 0 <= k < (y * w + x) * 4 ==> data@[k] == target[k],
            decreases w - x,
        {
            proof {
                lemma_pixel_index(x as int, y as int, w as int, h as int);
                assert((y * w + x) * 4 + 4 <= w * h * 4) by (nonlinear_arith)
                    requires
                        (y * w + x) + 1 <= w * h,
                ;
            }
            let p = y * w + x;
            let idx = (p * 4) as usize;
            let q = x / bar_width;
            let bar = if q < 7 { q } else { 7 };
            let color = color_bar_rgb(bar);
            data.set(idx, color.0);
            data.set(idx + 1, color.1);
            data.set(idx + 2, color.2);
            data.set(idx + 3, 255);
            proof {
                assert forall|k: int| 0 <= k < (y * w + x + 1) * 4 implies data@[k] == target[k] by {
                    if k >= (y * w + x) * 4 {
                        let c = k - (y * w + x) * 4;
                        lemma_rgba_byte(k, (y * w + x) as int, c);
                    }
                }
            }
            x = x + 1;
        }
        proof {
            assert((y + 1) * w * 4 == (y * w + w) * 4) by (nonlinear_arith);
        }
        y = y + 1;
    }
    proof {
        assert(h * w * 4 == w * h * 4) by (nonlinear_arith);
        assert(data@ =~= target);
    }
    VideoFrame { width: w, height: h, format: VideoFormat::Rgba8, data }
}

/// The operations of a platform camera backend.
pub trait PlatformCamera: Sized {
    spec fn spec_active(&self) -> bool;

    spec fn spec_geometry(&self) -> (u32, u32, u32);

    /// Whether a frame can be produced from the current geometry without
    /// overflowing the pixel arithmetic of the backend's pattern.
    spec fn spec_frame_fits(&self) -> bool;

    /// A new, inactive camera.
    fn new(device_index: u32, width: u32, height: u32, fps: u32) -> (r: Result<Self, CameraError>)
        ensures
            r matches Ok(c) && !c.spec_active() && c.spec_geometry() == (width, height, fps);

    fn start(&mut self) -> (r: Result<(), CameraError>)
        ensures
            r is Ok,
            final(self).spec_active(),
            final(self).spec_geometry() == old(self).spec_geometry();

    fn stop(&mut self) -> (r: Result<(), CameraError>)
        ensures
            r is Ok,
            !final(self).spec_active(),
            final(self).spec_geometry() == old(self).spec_geometry();

    /// A frame of the current geometry; refused while the camera is stopped.
    fn capture_frame(&mut self) -> (r: Result<VideoFrame, CameraError>)
        requires
            old(self).spec_active() ==> old(self).spec_frame_fits(),
        ensures
            !old(self).spec_active() ==> r == Err::<VideoFrame, CameraError>(CameraError::NotActive),
            old(self).spec_active() ==> (r matches Ok(f) && f.width == old(self).spec_geometry().0
                && f.height == old(self).spec_geometry().1 && f.format == VideoFormat::Rgba8
                && f.data@.len() == f.width * f.height * 4),
            final(self).spec_active() == old(self).spec_active(),
            final(self).spec_geometry() == old(self).spec_geometry();

    fn list_devices() -> (r: Result<Vec<CameraDeviceInfo>, CameraError>)
        ensures
            r is Ok;

    /// Apply the width, height and fps that `params` holds.
    fn set_parameters(&mut self, params: &CameraParameters) -> (r: Result<(), CameraError>)
        ensures
            r is Ok,
            final(self).spec_geometry() == apply_params(
                *params,
                old(self).spec_geometry().0,
                old(self).spec_geometry().1,
                old(self).spec_geometry().2,
            ),
            final(self).spec_active() == old(self).spec_active();

    fn is_active(&self) -> (b: bool)
        ensures
            b == self.spec_active();
}

/// A Video4Linux camera; until capture is wired to V4L2 it produces colour bars.
pub struct LinuxCamera {
    pub device_index: u32,
    pub width: u32,
    pub height: u32,
    pub fps: u32,
    pub is_active: bool,
}

/// An AVFoundation camera; until capture is wired it produces a gradient.
pub struct MacOSCamera {
    pub device_index: u32,
    pub width: u32,
    pub height: u32,
    pub fps: u32,
    pub is_active: bool,
}

/// A DirectShow / Media Foundation camera; until capture is wired it produces a checkerboard.
pub struct WindowsCamera {
    pub device_index: u32,
    pub width: u32,
    pub height: u32,
    pub fps: u32,
    pub is_active: bool,
}

/// The camera backend of the platform this library is built for.
pub type PlatformCameraImpl = LinuxCamera;

/// A device entry.
fn device(index: u32, name: &str, description: &str, vendor: &str, product: &str) -> (d: CameraDeviceInfo)
    ensures
        d.index == index,
        d.name@ == name@,
        d.description@ == description@,
        d.vendor_id matches Some(v) && v@ == vendor@,
        d.product_id matches Some(p) && p@ == product@,
{
    CameraDeviceInfo {
        index,
        name: String::from_str(name),
        description: String::from_str(description),
        vendor_id: Some(String::from_str(vendor)),
        product_id: Some(String::from_str(product)),
    }
}

impl LinuxCamera {
    /// The colour-bar frame of this camera's geometry.
    pub open spec fn spec_frame(&self) -> Seq<u8> {
        rgba_raster(self.width as int, self.height as int, color_bars_pixel(self.width as int))
    }

    /// The devices this backend reports.
    pub open spec fn spec_devices(d: Seq<CameraDeviceInfo>) -> bool {
        &&& d.len() == 2
        &&& d[0].index == 0 && d[0].name@ == "/dev/video0"@
        &&& d[0].description@ == "Linux V4L2 Camera Device 0"@
        &&& d[0].vendor_id matches Some(v) && v@ == "v4l2"@
        &&& d[0].product_id matches Some(p) && p@ == "video0"@
        &&& d[1].index == 1 && d[1].name@ == "/dev/video1"@
        &&& d[1].description@ == "Linux V4L2 Camera Device 1"@
        &&& d[1].vendor_id matches Some(v) && v@ == "v4l2"@
        &&& d[1].product_id matches Some(p) && p@ == "video1"@
    }
}

impl PlatformCamera for LinuxCamera {
    open spec fn spec_active(&self) -> bool {
        self.is_active
    }

    open spec fn spec_geometry(&self) -> (u32, u32, u32) {
        (self.width, self.height, self.fps)
    }

    open spec fn spec_frame_fits(&self) -> bool {
        &&& self.width * self.height * 4 <= u32::MAX
        &&& (self.height > 0 ==> self.width == 0 || self.width >= 8)
    }

    fn new(device_index: u32, width: u32, height: u32, fps: u32) -> (r: Result<Self, CameraError>) {
        Ok(LinuxCamera { device_index, width, height, fps, is_active: false })
    }

    fn start(&mut self) -> (r: Result<(), CameraError>) {
        self.is_active = true;
        Ok(())
    }

    fn stop(&mut self) -> (r: Result<(), CameraError>) {
        self.is_active = false;
        Ok(())
    }

    fn capture_frame(&mut self) -> (r: Result<VideoFrame, CameraError>)
        ensures
            old(self).is_active ==> (r matches Ok(f) && f.data@ == old(self).spec_frame()),
    {
        if !self.is_active {
            return Err(CameraError::NotActive);
        }
        Ok(color_bars_frame(self.width, self.height))
    }

    fn list_devices() -> (r: Result<Vec<CameraDeviceInfo>, CameraError>)
        ensures
            r matches Ok(d) && Self::spec_devices(d@),
    {
        let mut v: Vec<CameraDeviceInfo> = Vec::new();
        v.push(device(0, "/dev/video0", "Linux V4L2 Camera Device 0", "v4l2", "video0"));
        v.push(device(1, "/dev/video1", "Linux V4L2 Camera Device 1", "v4l2", "video1"));
        Ok(v)
    }

    fn set_parameters(&mut self, params: &CameraParameters) -> (r: Result<(), CameraError>) {
        if let Some(width) = params.width {
            self.width = low_u32(width);
        }
        if let Some(height) = params.height {
            self.height = low_u32(height);
        }
        if let Some(fps) = params.fps {
            self.fps = low_u32(fps);
        }
        Ok(())
    }

    fn is_active(&self) -> (b: bool) {
        self.is_active
    }
}


impl MacOSCamera {
    /// The gradient frame of this camera's geometry.
    pub open spec fn spec_frame(&self) -> Seq<u8> {
        rgba_raster(
            self.width as int,
            self.height as int,
            gradient_pixel(self.width as int, self.height as int),
        )
    }

    /// The devices this backend reports.
    pub open spec fn spec_devices(d: Seq<CameraDeviceInfo>) -> bool {
        &&& d.len() == 1
        &&& d[0].index == 0 && d[0].name@ == "Built-in Camera"@
        &&& d[0].description@ == "macOS AVFoundation Camera"@
        &&& d[0].vendor_id matches Some(v) && v@ == "Apple"@
        &&& d[0].product_id matches Some(p) && p@ == "BuiltIn"@
    }
}

impl PlatformCamera for MacOSCamera {
    open spec fn spec_active(&self) -> bool {
        self.is_active
    }

    open spec fn spec_geometry(&self) -> (u32, u32, u32) {
        (self.width, self.height, self.fps)
    }

    open spec fn spec_frame_fits(&self) -> bool {
        &&& self.width * self.height * 4 <= u32::MAX
        &&& (self.width > 0 && self.height > 0) ==> ((self.width - 1) * 255 <= u32::MAX && (
        self.height - 1) * 255 <= u32::MAX)
    }

    fn new(device_index: u32, width: u32, height: u32, fps: u32) -> (r: Result<Self, CameraError>) {
        Ok(MacOSCamera { device_index, width, height, fps, is_active: false })
    }

    fn start(&mut self) -> (r: Result<(), CameraError>) {
        self.is_active = true;
        Ok(())
    }

    fn stop(&mut self) -> (r: Result<(), CameraError>) {
        self.is_active = false;
        Ok(())
    }

    fn capture_frame(&mut self) -> (r: Result<VideoFrame, CameraError>)
        ensures
            old(self).is_active ==> (r matches Ok(f) && f.data@ == old(self).spec_frame()),
    {
        if !self.is_active {
            return Err(CameraError::NotActive);
        }
        let w = self.width;
        let h = self.height;
        let frame_size = (w * h * 4) as usize;
        let mut data = zeroed_bytes(frame_size);
        let ghost target = self.spec_frame();
        let mut y: u32 = 0;
        while y < h
            invariant
                w == self.width,
                h == self.height,
                self.spec_frame_fits(),
                y <= h,
                target == self.spec_frame(),
                data@.len() == w * h * 4,
                forall|k: int| 0 <= k < y * w * 4 ==> data@[k] == target[k],
            decreases h - y,
        {
            let mut x: u32 = 0;
            while x < w
                invariant
                    w == self.width,
                    h == self.height,
                    self.spec_frame_fits(),
                    y < h,
                    x <= w,
                    target == self.spec_frame(),
                    data@.len() == w * h * 4,
                    forall|k: int| 0 <= k < (y * w + x) * 4 ==> data@[k] == target[k],
                decreases w - x,
            {
                proof {
                    lemma_pixel_index(x as int, y as int, w as int, h as int);
                    assert((y * w + x) * 4 + 4 <= w * h * 4) by (nonlinear_arith)
                        requires
                            (y * w + x) + 1 <= w * h,
                    ;
                }
                let p = y * w + x;
                let idx = (p * 4) as usize;
                proof {
                    assert(x * 255 <= (w - 1) * 255) by (nonlinear_arith)
                        requires
                            0 <= x < w,
                    ;
                    assert(y * 255 <= (h - 1) * 255) by (nonlinear_arith)
                        requires
                            0 <= y < h,
                    ;
                    assert(x * 255 / (w as int) < 256) by (nonlinear_arith)
                        requires
                            0 <= x < w,
                    ;
                    assert(y * 255 / (h as int) < 256) by (nonlinear_arith)
                        requires
                            0 <= y < h,
                    ;
                }
                data.set(idx, (x * 255 / w) as u8);
                data.set(idx + 1, (y * 255 / h) as u8);
                data.set(idx + 2, 128);
                data.set(idx + 3, 255);
                proof {
                    assert forall|k: int| 0 <= k < (y * w + x + 1) * 4 implies data@[k] == target[k] by {
                        if k >= (y * w + x) * 4 {
                            let c = k - (y * w + x) * 4;
                            lemma_rgba_byte(k, (y * w + x) as int, c);
                        }
                    }
                }
                x = x + 1;
            }
            proof {
                assert((y + 1) * w * 4 == (y * w + w) * 4) by (nonlinear_arith);
            }
            y = y + 1;
        }
        proof {
            assert(h * w * 4 == w * h * 4) by (nonlinear_arith);
            assert(data@ =~= target);
        }
        Ok(VideoFrame { width: w, height: h, format: VideoFormat::Rgba8, data })
    }

    fn list_devices() -> (r: Result<Vec<CameraDeviceInfo>, CameraError>)
        ensures
            r matches Ok(d) && Self::spec_devices(d@),
    {
        let mut v: Vec<CameraDeviceInfo> = Vec::new();
        v.push(device(0, "Built-in Camera", "macOS AVFoundation Camera", "Apple", "BuiltIn"));
        Ok(v)
    }

    fn set_parameters(&mut self, params: &CameraParameters) -> (r: Result<(), CameraError>) {
        if let Some(width) = params.width {
            self.width = low_u32(width);
        }
        if let Some(height) = params.height {
            self.height = low_u32(height);
        }
        if let Some(fps) = params.fps {
            self.fps = low_u32(fps);
        }
        Ok(())
    }

    fn is_active(&self) -> (b: bool) {
        self.is_active
    }
}

impl WindowsCamera {
    /// The checkerboard frame of this camera's geometry.
    pub open spec fn spec_frame(&self) -> Seq<u8> {
        rgba_raster(self.width as int, self.height as int, checker_pixel())
    }

    /// The devices this backend reports.
    pub open spec fn spec_devices(d: Seq<CameraDeviceInfo>) -> bool {
        &&& d.len() == 2
        &&& d[0].index == 0 && d[0].name@ == "Integrated Camera"@
        &&& d[0].description@ == "Windows DirectShow Camera"@
        &&& d[0].vendor_id matches Some(v) && v@ == "Microsoft"@
        &&& d[0].product_id matches Some(p) && p@ == "IntegratedCamera"@
        &&& d[1].index == 1 && d[1].name@ == "USB Camera"@
        &&& d[1].description@ == "Generic USB Camera"@
        &&& d[1].vendor_id matches Some(v) && v@ == "Generic"@
        &&& d[1].product_id matches Some(p) && p@ == "USBCamera"@
    }
}

impl PlatformCamera for WindowsCamera {
    open spec fn spec_active(&self) -> bool {
        self.is_active
    }

    open spec fn spec_geometry(&self) -> (u32, u32, u32) {
        (self.width, self.height, self.fps)
    }

    open spec fn spec_frame_fits(&self) -> bool {
        self.width * self.height * 4 <= u32::MAX
    }

    fn new(device_index: u32, width: u32, height: u32, fps: u32) -> (r: Result<Self, CameraError>) {
        Ok(WindowsCamera { device_index, width, height, fps, is_active: false })
    }

    fn start(&mut self) -> (r: Result<(), CameraError>) {
        self.is_active = true;
        Ok(())
    }

    fn stop(&mut self) -> (r: Result<(), CameraError>) {
        self.is_active = false;
        Ok(())
    }

    fn capture_frame(&mut self) -> (r: Result<VideoFrame, CameraError>)
        ensures
            old(self).is_active ==> (r matches Ok(f) && f.data@ == old(self).spec_frame()),
    {
        if !self.is_active {
            return Err(CameraError::NotActive);
        }
        let w = self.width;
        let h = self.height;
        let frame_size = (w * h * 4) as usize;
        let mut data = zeroed_bytes(frame_size);
        let ghost target = self.spec_frame();
        let mut y: u32 = 0;
        while y < h
            invariant
                w == self.width,
                h == self.height,
                self.spec_frame_fits(),
                y <= h,
                target == self.spec_frame(),
                data@.len() == w * h * 4,
                forall|k: int| 0 <= k < y * w * 4 ==> data@[k] == target[k],
            decreases h - y,
        {
            let mut x: u32 = 0;
            while x < w
                invariant
                    w == self.width,
                    h == self.height,
                    self.spec_frame_fits(),
                    y < h,
                    x <= w,
                    target == self.spec_frame(),
                    data@.len() == w * h * 4,
                    forall|k: int| 0 <= k < (y * w + x) * 4 ==> data@[k] == target[k],
                decreases w - x,
            {
                proof {
                    lemma_pixel_index(x as int, y as int, w as int, h as int);
                    assert((y * w + x) * 4 + 4 <= w * h * 4) by (nonlinear_arith)
                        requires
                            (y * w + x) + 1 <= w * h,
                    ;
                }
                let p = y * w + x;
                let idx = (p * 4) as usize;
                let checker = ((x / 32) + (y / 32)) % 2;
                let color: u8 = if checker == 0 { 255 } else { 128 };
                data.set(idx, color);
                data.set(idx + 1, color);
                data.set(idx + 2, color);
                data.set(idx + 3, 255);
                proof {
                    assert forall|k: int| 0 <= k < (y * w + x + 1) * 4 implies data@[k] == target[k] by {
                        if k >= (y * w + x) * 4 {
                            let c = k - (y * w + x) * 4;
                            lemma_rgba_byte(k, (y * w + x) as int, c);
                        }
                    }
                }
                x = x + 1;
            }
            proof {
                assert((y + 1) * w * 4 == (y * w + w) * 4) by (nonlinear_arith);
            }
            y = y + 1;
        }
        proof {
            assert(h * w * 4 == w * h * 4) by (nonlinear_arith);
            assert(data@ =~= target);
        }
        Ok(VideoFrame { width: w, height: h, format: VideoFormat::Rgba8, data })
    }

    fn list_devices() -> (r: Result<Vec<CameraDeviceInfo>, CameraError>)
        ensures
            r matches Ok(d) && Self::spec_devices(d@),
    {
        let mut v: Vec<CameraDeviceInfo> = Vec::new();
        v.push(device(0, "Integrated Camera", "Windows DirectShow Camera", "Microsoft", "IntegratedCamera"));
        v.push(device(1, "USB Camera", "Generic USB Camera", "Generic", "USBCamera"));
        Ok(v)
    }

    fn set_parameters(&mut self, params: &CameraParameters) -> (r: Result<(), CameraError>) {
        if let Some(width) = params.width {
            self.width = low_u32(width);
        }
        if let Some(height) = params.height {
            self.height = low_u32(height);
        }
        if let Some(fps) = params.fps {
            self.fps = low_u32(fps);
        }
        Ok(())
    }

    fn is_active(&self) -> (b: bool) {
        self.is_active
    }
}

/// A camera device as the capture layer lists it.
#[derive(Debug, Clone)]
pub struct CameraDevice {
    pub index: u32,
    pub name: String,
    pub description: String,
}

/// What a camera device offers.
#[derive(Debug)]
pub struct CameraCapabilities {
    pub resolutions: Vec<(u32, u32)>,
    pub frame_rates: Vec<u32>,
    pub formats: Vec<VideoFormat>,
}

/// The parameters a running capture accepts: each entry is applied where it
/// is present, as the low 32 bits of the given value.
#[derive(Debug, Clone, Copy, PartialEq, Eq, Structural)]
pub struct CaptureParameters {
    pub width: Option<u64>,
    pub height: Option<u64>,
    pub fps: Option<u64>,
    pub device_index: Option<u64>,
}

/// A value after an optional override: the override's low 32 bits, else the value.
pub open spec fn overridden(v: Option<u64>, current: u32) -> u32 {
    match v {
        Some(x) => param_u32(x),
        None => current,
    }
}

/// The state of a camera capture session: the device and geometry that the
/// next stream opens with, and whether a stream is open.
#[derive(Debug, Clone)]
pub struct CameraCapture {
    pub device_index: u32,
    pub width: u32,
    pub height: u32,
    pub fps: u32,
    pub format: VideoFormat,
    pub is_running: bool,
}

impl CameraCapture {
    /// A stopped capture of RGBA frames from the given device.
    pub fn new(device_index: u32, width: u32, height: u32, fps: u32) -> (r: Result<Self, CameraError>)
        ensures
            r matches Ok(c) && c.device_index == device_index && c.width == width
                && c.height == height && c.fps == fps && c.format == VideoFormat::Rgba8
                && !c.is_running,
    {
        Ok(CameraCapture { device_index, width, height, fps, format: VideoFormat::Rgba8, is_running: false })
    }

    /// Whether a stream is open.
    pub fn is_running(&self) -> (b: bool)
        ensures
            b == self.is_running,
    {
        self.is_running
    }

    /// The frame rate the capture asks for.
    pub fn fps(&self) -> (f: u32)
        ensures
            f == self.fps,
    {
        self.fps
    }

    /// Record that the stream was opened.
    pub fn mark_started(&mut self)
        ensures
            *final(self) == (CameraCapture { is_running: true, ..*old(self) }),
    {
        self.is_running = true;
    }

    /// Record that the stream was closed.
    pub fn mark_stopped(&mut self)
        ensures
            *final(self) == (CameraCapture { is_running: false, ..*old(self) }),
    {
        self.is_running = false;
    }

    /// Apply the present entries of `params`; the result says whether the
    /// open stream has to be reopened for them to take effect.
    pub fn set_parameters(&mut self, params: &CaptureParameters) -> (restart: bool)
        ensures
            final(self).width == overridden(params.width, old(self).width),
            final(self).height == overridden(params.height, old(self).height),
            final(self).fps == overridden(params.fps, old(self).fps),
            final(self).device_index == overridden(params.device_index, old(self).device_index),
            final(self).format == old(self).format,
            final(self).is_running == old(self).is_running,
            restart == old(self).is_running,
    {
        if let Some(w) = params.width {
            self.width = low_u32(w);
        }
        if let Some(h) = params.height {
            self.height = low_u32(h);
        }
        if let Some(f) = params.fps {
            self.fps = low_u32(f);
        }
        if let Some(d) = params.device_index {
            self.device_index = low_u32(d);
        }
        self.is_running
    }

    /// The frame made of a captured buffer: refused while no stream is open,
    /// else the buffer with its resolution, in the capture's pixel format.
    pub fn frame_from_buffer(&self, width: u32, height: u32, data: Vec<u8>) -> (r: Result<VideoFrame, CameraError>)
        ensures
            !self.is_running ==> r == Err::<VideoFrame, CameraError>(CameraError::NotActive),
            self.is_running ==> (r matches Ok(f) && f.width == width && f.height == height
                && f.format == self.format && f.data@ == data@),
    {
        if !self.is_running {
            return Err(CameraError::NotActive);
        }
        Ok(VideoFrame { width, height, format: self.format, data })
    }

    /// What the open stream offers: its resolution, frame rate and format.
    pub fn get_capabilities(&self) -> (r: Result<CameraCapabilities, CameraError>)
        ensures
            !self.is_running ==> (r matches Err(e) && e == CameraError::NotActive),
            self.is_running ==> (r matches Ok(c) && c.resolutions@ == seq![(self.width, self.height)]
                && c.frame_rates@ == seq![self.fps] && c.formats@ == seq![self.format]),
    {
        if !self.is_running {
            return Err(CameraError::NotActive);
        }
        Ok(CameraCapabilities {
            resolutions: vec![(self.width, self.height)],
            frame_rates: vec![self.fps],
            formats: vec![self.format],
        })
    }
}

} // verus!
