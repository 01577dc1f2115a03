use vstd::prelude::*;
use crate::frame::{VideoFrame, zeroed_bytes, lemma_pixel_index};
use crate::pixel::{frame_rgba, frame_yuv, rgba_of, yuv_of};
use crate::frame::VideoFormat as FrameFormat;
use crate::ident::{new_uuid, uuid_text, uuid_hyphenated};

verus! {

/// Pixel layouts that the virtual webcam can emit.
#[derive(Debug, Clone, Copy, PartialEq, Eq, Structural)]
pub enum VideoFormat {
    RGB24,
    BGRA32,
    YUV420,
    NV12,
}

impl VideoFormat {
    /// Bytes per pixel of the packed formats; the planar formats report one byte.
    pub open spec fn spec_bytes_per_pixel(self) -> u32 {
        match self {
            VideoFormat::RGB24 => 3,
            VideoFormat::BGRA32 => 4,
            VideoFormat::YUV420 => 1,
            VideoFormat::NV12 => 1,
        }
    }

    /// Number of bytes of a whole `width` x `height` frame.
    pub open spec fn spec_frame_size(self, width: int, height: int) -> int {
        match self {
            VideoFormat::RGB24 => width * height * 3,
            VideoFormat::BGRA32 => width * height * 4,
            VideoFormat::YUV420 | VideoFormat::NV12 => width * height * 3 / 2,
        }
    }

    /// Bytes per row of the first plane.
    pub open spec fn spec_stride(self, width: int) -> int {
        match self {
            VideoFormat::RGB24 => width * 3,
            VideoFormat::BGRA32 => width * 4,
            VideoFormat::YUV420 | VideoFormat::NV12 => width,
        }
    }

    /// Bytes per pixel for packed formats (planar formats report 1; use `frame_size`).
    pub fn bytes_per_pixel(&self) -> (r: u32)
        ensures
            r == self.spec_bytes_per_pixel(),
    {
        match self {
            VideoFormat::RGB24 => 3,
            VideoFormat::BGRA32 => 4,
            VideoFormat::YUV420 => 1,
            VideoFormat::NV12 => 1,
        }
    }

    /// Total frame size in bytes for the given dimensions.
    /// The products `width * height * 3` (packed RGB and the planar layouts)
    /// or `width * height * 4` (BGRA) must fit in `u32`.
    pub fn frame_size(&self, width: u32, height: u32) -> (r: usize)
        requires
            conversion_fits(width, height, *self),
        ensures
            r as int == self.spec_frame_size(width as int, height as int),
    {
        match self {
            VideoFormat::RGB24 => (width * height * 3) as usize,
            VideoFormat::BGRA32 => (width * height * 4) as usize,
            VideoFormat::YUV420 | VideoFormat::NV12 => (width * height * 3 / 2) as usize,
        }
    }

    /// Bytes per row of the first plane.
    pub fn stride(&self, width: u32) -> (r: u32)
        requires
            width * self.spec_bytes_per_pixel() <= u32::MAX,
        ensures
            r as int == self.spec_stride(width as int),
    {
        match self {
            VideoFormat::RGB24 => width * 3,
            VideoFormat::BGRA32 => width * 4,
            VideoFormat::YUV420 => width,
            VideoFormat::NV12 => width,
        }
    }
}

/// Why a virtual webcam refused a request.
#[derive(Debug, Clone, Copy, PartialEq, Eq, Structural)]
pub enum WebcamError {
    /// A frame was sent while the webcam was not started.
    NotActive,
    /// The resolution cannot change while the webcam runs.
    ResolutionLockedWhileActive,
    /// The frame rate cannot change while the webcam runs.
    FpsLockedWhileActive,
    /// The webcam is marked active but holds no virtual device.
    NoVirtualDevice,
}

/// Virtual webcam configuration.
#[derive(Debug, Clone)]
pub struct VirtualWebcamConfig {
    pub device_name: String,
    pub width: u32,
    pub height: u32,
    pub fps: u32,
    pub format: VideoFormat,
}

impl Default for VirtualWebcamConfig {
    fn default() -> (c: Self)
        ensures
            c.device_name@ == "Constellation Studio"@,
            c.width == 1920,
            c.height == 1080,
            c.fps == 30,
            c.format == VideoFormat::RGB24,
    {
        VirtualWebcamConfig {
            device_name: String::from_str("Constellation Studio"),
            width: 1920,
            height: 1080,
            fps: 30,
            format: VideoFormat::RGB24,
        }
    }
}

/// The operations every virtual webcam backend offers.
pub trait VirtualWebcamBackend: Sized {
    spec fn spec_active(&self) -> bool;

    spec fn spec_name(&self) -> Seq<char>;

    spec fn spec_width(&self) -> u32;

    spec fn spec_height(&self) -> u32;

    spec fn spec_fps(&self) -> u32;

    /// Whether the backend can take one more frame (its frame counter is not exhausted).
    spec fn spec_can_send(&self) -> bool;

    /// A new, inactive backend with the given name and geometry.
    fn new(device_name: String, width: u32, height: u32, fps: u32) -> (r: Result<Self, WebcamError>)
        ensures
            r matches Ok(w) && !w.spec_active() && w.spec_name() == device_name@
                && w.spec_width() == width && w.spec_height() == height && w.spec_fps() == fps;

    /// Start the virtual device; starting an active webcam changes nothing.
    fn start(&mut self) -> (r: Result<(), WebcamError>)
        ensures
            r is Ok,
            final(self).spec_active(),
            final(self).spec_name() == old(self).spec_name(),
            final(self).spec_width() == old(self).spec_width(),
            final(self).spec_height() == old(self).spec_height(),
            final(self).spec_fps() == old(self).spec_fps();

    /// Stop the virtual device; stopping an inactive webcam changes nothing.
    fn stop(&mut self) -> (r: Result<(), WebcamError>)
        ensures
            r is Ok,
            !final(self).spec_active(),
            final(self).spec_name() == old(self).spec_name(),
            final(self).spec_width() == old(self).spec_width(),
            final(self).spec_height() == old(self).spec_height(),
            final(self).spec_fps() == old(self).spec_fps();

    /// Hand one frame to the virtual device; refused while inactive.
    fn send_frame(&mut self, frame: &VideoFrame) -> (r: Result<(), WebcamError>)
        requires
            old(self).spec_can_send(),
        ensures
            !old(self).spec_active() ==> r == Err::<(), WebcamError>(WebcamError::NotActive),
            final(self).spec_active() == old(self).spec_active(),
            final(self).spec_name() == old(self).spec_name(),
            final(self).spec_width() == old(self).spec_width(),
            final(self).spec_height() == old(self).spec_height(),
            final(self).spec_fps() == old(self).spec_fps();

    fn is_active(&self) -> (b: bool)
        ensures
            b == self.spec_active();

    fn get_device_name(&self) -> (s: &str)
        ensures
            s@ == self.spec_name();

    /// Change the resolution; refused while active.
    fn set_resolution(&mut self, width: u32, height: u32) -> (r: Result<(), WebcamError>)
        ensures
            old(self).spec_active() ==> r == Err::<(), WebcamError>(
                WebcamError::ResolutionLockedWhileActive,
            ) && final(self).spec_width() == old(self).spec_width()
                && final(self).spec_height() == old(self).spec_height(),
            !old(self).spec_active() ==> r is Ok && final(self).spec_width() == width
                && final(self).spec_height() == height,
            final(self).spec_active() == old(self).spec_active(),
            final(self).spec_name() == old(self).spec_name(),
            final(self).spec_fps() == old(self).spec_fps();

    /// Change the frame rate; refused while active.
    fn set_fps(&mut self, fps: u32) -> (r: Result<(), WebcamError>)
        ensures
            old(self).spec_active() ==> r == Err::<(), WebcamError>(
                WebcamError::FpsLockedWhileActive,
            ) && final(self).spec_fps() == old(self).spec_fps(),
            !old(self).spec_active() ==> r is Ok && final(self).spec_fps() == fps,
            final(self).spec_active() == old(self).spec_active(),
            final(self).spec_name() == old(self).spec_name(),
            final(self).spec_width() == old(self).spec_width(),
            final(self).spec_height() == old(self).spec_height();
}

/// RGBA bytes with red and blue swapped in every whole 4-byte pixel; a trailing
/// partial pixel is dropped.
pub open spec fn rgba_to_bgra(s: Seq<u8>) -> Seq<u8> {
    Seq::new(
        ((s.len() / 4) * 4) as nat,
        |i: int|
            if i % 4 == 0 {
                s[i + 2]
            } else if i % 4 == 2 {
                s[i - 2]
            } else {
                s[i]
            },
    )
}

/// The text that names a freshly created virtual device.
pub open spec fn is_device_id(s: Seq<char>) -> bool {
    exists|u: u128| s == "constellation-"@ + uuid_hyphenated(u)
}

/// A virtual webcam that keeps the frames it is handed in a virtual device
/// (the Core Media I/O device model).
pub struct MacOSVirtualWebcam {
    pub device_name: String,
    pub width: u32,
    pub height: u32,
    pub fps: u32,
    pub format: VideoFormat,
    pub is_active: bool,
    pub device_id: Option<String>,
    pub frame_count: u64,
}

impl MacOSVirtualWebcam {
    /// Create the virtual device: a fresh identifier and a reset frame counter.
    fn create_virtual_device(&mut self)
        ensures
            final(self).device_id matches Some(id) && is_device_id(id@),
            final(self).frame_count == 0,
            final(self).device_name == old(self).device_name,
            final(self).width == old(self).width,
            final(self).height == old(self).height,
            final(self).fps == old(self).fps,
            final(self).format == old(self).format,
            final(self).is_active == old(self).is_active,
    {
        proof {
            reveal_strlit("constellation-");
        }
        let u = new_uuid();
        let text = uuid_text(u);
        let id = String::from_str("constellation-").concat(text.as_str());
        assert(is_device_id(id@));
        self.device_id = Some(id);
        self.frame_count = 0;
    }

    /// Destroy the virtual device, if there is one.
    pub fn destroy_virtual_device(&mut self) -> (r: Result<(), WebcamError>)
        ensures
            r is Ok,
            final(self).device_id is None,
            old(self).device_id is Some ==> final(self).frame_count == 0,
            old(self).device_id is None ==> final(self).frame_count == old(self).frame_count,
            final(self).device_name == old(self).device_name,
            final(self).width == old(self).width,
            final(self).height == old(self).height,
            final(self).fps == old(self).fps,
            final(self).format == old(self).format,
            final(self).is_active == old(self).is_active,
    {
        if self.device_id.is_some() {
            self.device_id = None;
            self.frame_count = 0;
        }
        Ok(())
    }

    /// RGBA to BGRA: swap the red and blue byte of each whole pixel.
    pub fn convert_rgba_to_bgra(&self, rgba_data: &[u8]) -> (out: Vec<u8>)
        ensures
            out@ == rgba_to_bgra(rgba_data@),
    {
        let n = rgba_data.len();
        let whole = n / 4;
        let mut out: Vec<u8> = Vec::with_capacity(n);
        let mut p: usize = 0;
        while p < whole
            invariant
                n == rgba_data@.len(),
                whole == n / 4,
                p <= whole,
                out@.len() == p * 4,
                forall|i: int| 0 <= i < p * 4 ==> out@[i] == rgba_to_bgra(rgba_data@)[i],
            decreases whole - p,
        {
            let b = 4 * p;
            out.push(rgba_data[b + 2]);
            out.push(rgba_data[b + 1]);
            out.push(rgba_data[b]);
            out.push(rgba_data[b + 3]);
            p = p + 1;
        }
        assert(out@ =~= rgba_to_bgra(rgba_data@));
        out
    }

    /// Prepare a frame for the device: RGBA frames become BGRA, others are copied;
    /// the frame counter advances.
    pub fn process_frame(&mut self, frame: &VideoFrame) -> (r: Result<Vec<u8>, WebcamError>)
        requires
            old(self).frame_count < u64::MAX,
        ensures
            r matches Ok(d) && (if frame.format == FrameFormat::Rgba8 {
                d@ == rgba_to_bgra(frame.data@)
            } else {
                d@ == frame.data@
            }),
            final(self).frame_count == old(self).frame_count + 1,
            final(self).device_id == old(self).device_id,
            final(self).device_name == old(self).device_name,
            final(self).width == old(self).width,
            final(self).height == old(self).height,
            final(self).fps == old(self).fps,
            final(self).format == old(self).format,
            final(self).is_active == old(self).is_active,
    {
        let data = if frame.format == FrameFormat::Rgba8 {
            self.convert_rgba_to_bgra(frame.data.as_slice())
        } else {
            frame.data.clone()
        };
        self.frame_count = self.frame_count + 1;
        Ok(data)
    }

    /// Deliver prepared bytes to the virtual device; refused when there is none.
    pub fn send_processed_frame(&self, frame_data: Vec<u8>) -> (r: Result<(), WebcamError>)
        ensures
            self.device_id is Some <==> r is Ok,
            self.device_id is None ==> r == Err::<(), WebcamError>(WebcamError::NoVirtualDevice),
    {
        if self.device_id.is_some() {
            Ok(())
        } else {
            Err(WebcamError::NoVirtualDevice)
        }
    }
}

impl VirtualWebcamBackend for MacOSVirtualWebcam {
    open spec fn spec_active(&self) -> bool {
        self.is_active
    }

    open spec fn spec_name(&self) -> Seq<char> {
        self.device_name@
    }

    open spec fn spec_width(&self) -> u32 {
        self.width
    }

    open spec fn spec_height(&self) -> u32 {
        self.height
    }

    open spec fn spec_fps(&self) -> u32 {
        self.fps
    }

    open spec fn spec_can_send(&self) -> bool {
        self.frame_count < u64::MAX
    }

    fn new(device_name: String, width: u32, height: u32, fps: u32) -> (r: Result<Self, WebcamError>) {
        Ok(MacOSVirtualWebcam {
            device_name,
            width,
            height,
            fps,
            format: VideoFormat::BGRA32,
            is_active: false,
            device_id: None,
            frame_count: 0,
        })
    }

    fn start(&mut self) -> (r: Result<(), WebcamError>)
        ensures
            old(self).is_active ==> final(self).device_id == old(self).device_id,
            !old(self).is_active ==> final(self).device_id is Some,
    {
        if self.is_active {
            return Ok(());
        }
        self.create_virtual_device();
        self.is_active = true;
        Ok(())
    }

    fn stop(&mut self) -> (r: Result<(), WebcamError>)
        ensures
            old(self).is_active ==> final(self).device_id is None,
            !old(self).is_active ==> final(self).device_id == old(self).device_id,
    {
        if !self.is_active {
            return Ok(());
        }
        let _ = self.destroy_virtual_device();
        self.is_active = false;
        Ok(())
    }

    fn send_frame(&mut self, frame: &VideoFrame) -> (r: Result<(), WebcamError>)
        ensures
            old(self).is_active ==> final(self).frame_count == old(self).frame_count + 1
                && (r is Ok <==> old(self).device_id is Some)
                && (r is Err ==> r == Err::<(), WebcamError>(WebcamError::NoVirtualDevice)),
            !old(self).is_active ==> final(self).frame_count == old(self).frame_count,
            final(self).device_id == old(self).device_id,
    {
        if !self.is_active {
            return Err(WebcamError::NotActive);
        }
        let processed = self.process_frame(frame)?;
        self.send_processed_frame(processed)
    }

    fn is_active(&self) -> (b: bool) {
        self.is_active
    }

    fn get_device_name(&self) -> (s: &str) {
        self.device_name.as_str()
    }

    fn set_resolution(&mut self, width: u32, height: u32) -> (r: Result<(), WebcamError>)
        ensures
            final(self).device_id == old(self).device_id,
    {
        if self.is_active {
            return Err(WebcamError::ResolutionLockedWhileActive);
        }
        self.width = width;
        self.height = height;
        Ok(())
    }

    fn set_fps(&mut self, fps: u32) -> (r: Result<(), WebcamError>)
        ensures
            final(self).device_id == old(self).device_id,
    {
        if self.is_active {
            return Err(WebcamError::FpsLockedWhileActive);
        }
        self.fps = fps;
        Ok(())
    }
}


/// The virtual webcam backend that this library drives.
pub type PlatformVirtualWebcam = MacOSVirtualWebcam;

/// Cross-platform virtual webcam manager: a backend and the configuration it was
/// built from, kept in step with the backend.
pub struct VirtualWebcam {
    backend: PlatformVirtualWebcam,
    config: VirtualWebcamConfig,
}

impl VirtualWebcam {
    pub closed spec fn spec_config(&self) -> VirtualWebcamConfig {
        self.config
    }

    pub closed spec fn spec_backend(&self) -> PlatformVirtualWebcam {
        self.backend
    }

    /// Configuration and backend agree on name and geometry, and a running
    /// backend holds a virtual device.
    pub open spec fn in_step(&self) -> bool {
        &&& self.spec_backend().is_active ==> self.spec_backend().device_id is Some
        &&& self.spec_config().device_name@ == self.spec_backend().device_name@
        &&& self.spec_config().width == self.spec_backend().width
        &&& self.spec_config().height == self.spec_backend().height
        &&& self.spec_config().fps == self.spec_backend().fps
    }

    /// A virtual webcam with the default configuration under the given name.
    pub fn new(device_name: String) -> (r: Result<Self, WebcamError>)
        ensures
            r matches Ok(w) && w.in_step() && !w.spec_backend().is_active
                && w.spec_config().device_name@ == device_name@ && w.spec_config().width == 1920
                && w.spec_config().height == 1080 && w.spec_config().fps == 30
                && w.spec_config().format == VideoFormat::RGB24,
    {
        let mut config = VirtualWebcamConfig::default();
        config.device_name = device_name;
        Self::new_with_config(config)
    }

    /// A virtual webcam with a custom configuration.
    pub fn new_with_config(config: VirtualWebcamConfig) -> (r: Result<Self, WebcamError>)
        ensures
            r matches Ok(w) && w.in_step() && !w.spec_backend().is_active
                && w.spec_config() == config,
    {
        let backend = match PlatformVirtualWebcam::new(
            config.device_name.clone(),
            config.width,
            config.height,
            config.fps,
        ) {
            Ok(b) => b,
            Err(e) => return Err(e),
        };
        Ok(VirtualWebcam { backend, config })
    }

    /// Start the virtual webcam.
    pub fn start(&mut self) -> (r: Result<(), WebcamError>)
        ensures
            r is Ok,
            final(self).spec_backend().is_active,
            final(self).spec_config() == old(self).spec_config(),
            old(self).in_step() ==> final(self).in_step(),
    {
        self.backend.start()
    }

    /// Stop the virtual webcam.
    pub fn stop(&mut self) -> (r: Result<(), WebcamError>)
        ensures
            r is Ok,
            !final(self).spec_backend().is_active,
            final(self).spec_config() == old(self).spec_config(),
            old(self).in_step() ==> final(self).in_step(),
    {
        self.backend.stop()
    }

    /// Send a frame to the virtual webcam; refused exactly when not started.
    pub fn send_frame(&mut self, frame: &VideoFrame) -> (r: Result<(), WebcamError>)
        requires
            old(self).spec_backend().frame_count < u64::MAX,
        ensures
            old(self).in_step() ==> (r is Ok <==> old(self).spec_backend().is_active),
            !old(self).spec_backend().is_active ==> r == Err::<(), WebcamError>(
                WebcamError::NotActive,
            ),
            old(self).spec_backend().is_active ==> (r is Ok <==> old(self).spec_backend().device_id is Some),
            final(self).spec_backend().is_active == old(self).spec_backend().is_active,
            final(self).spec_config() == old(self).spec_config(),
            old(self).in_step() ==> final(self).in_step(),
    {
        self.backend.send_frame(frame)
    }

    /// Whether the virtual webcam is running.
    pub fn is_active(&self) -> (b: bool)
        ensures
            b == self.spec_backend().is_active,
    {
        self.backend.is_active()
    }

    /// The current configuration.
    pub fn config(&self) -> (c: &VirtualWebcamConfig)
        ensures
            *c == self.spec_config(),
    {
        &self.config
    }

    /// Change the resolution; the configuration follows the backend only on success.
    pub fn set_resolution(&mut self, width: u32, height: u32) -> (r: Result<(), WebcamError>)
        ensures
            old(self).spec_backend().is_active ==> r == Err::<(), WebcamError>(
                WebcamError::ResolutionLockedWhileActive,
            ) && final(self).spec_config() == old(self).spec_config(),
            !old(self).spec_backend().is_active ==> r is Ok && final(self).spec_config().width
                == width && final(self).spec_config().height == height
                && final(self).spec_config().fps == old(self).spec_config().fps
                && final(self).spec_config().device_name == old(self).spec_config().device_name
                && final(self).spec_config().format == old(self).spec_config().format,
            final(self).spec_backend().is_active == old(self).spec_backend().is_active,
            old(self).in_step() ==> final(self).in_step(),
    {
        let result = self.backend.set_resolution(width, height);
        if result.is_ok() {
            self.config.width = width;
            self.config.height = height;
        }
        result
    }

    /// Change the frame rate; the configuration follows the backend only on success.
    pub fn set_fps(&mut self, fps: u32) -> (r: Result<(), WebcamError>)
        ensures
            old(self).spec_backend().is_active ==> r == Err::<(), WebcamError>(
                WebcamError::FpsLockedWhileActive,
            ) && final(self).spec_config() == old(self).spec_config(),
            !old(self).spec_backend().is_active ==> r is Ok && final(self).spec_config().fps == fps
                && final(self).spec_config().width == old(self).spec_config().width
                && final(self).spec_config().height == old(self).spec_config().height
                && final(self).spec_config().device_name == old(self).spec_config().device_name
                && final(self).spec_config().format == old(self).spec_config().format,
            final(self).spec_backend().is_active == old(self).spec_backend().is_active,
            old(self).in_step() ==> final(self).in_step(),
    {
        let result = self.backend.set_fps(fps);
        if result.is_ok() {
            self.config.fps = fps;
        }
        result
    }

    /// Capabilities of the platform whose backend drives this webcam (macOS).
    pub fn platform_info() -> (p: PlatformInfo)
        ensures
            p.spec_is(TargetPlatform::MacOS),
    {
        PlatformInfo::current()
    }
}

/// The operating systems with a virtual webcam backend.
#[derive(Debug, Clone, Copy, PartialEq, Eq, Structural)]
pub enum TargetPlatform {
    Windows,
    MacOS,
    Linux,
}

/// Virtual webcam capabilities of a platform.
#[derive(Debug)]
pub struct PlatformInfo {
    pub platform: String,
    pub supports_dynamic_resolution: bool,
    pub supports_dynamic_fps: bool,
    pub preferred_formats: Vec<VideoFormat>,
    pub max_resolution: (u32, u32),
    pub supported_fps: Vec<u32>,
}

impl Clone for PlatformInfo {
    fn clone(&self) -> (c: Self)
        ensures
            c.platform@ == self.platform@,
            c.supports_dynamic_resolution == self.supports_dynamic_resolution,
            c.supports_dynamic_fps == self.supports_dynamic_fps,
            c.preferred_formats@ == self.preferred_formats@,
            c.max_resolution == self.max_resolution,
            c.supported_fps@ == self.supported_fps@,
    {
        PlatformInfo {
            platform: self.platform.clone(),
            supports_dynamic_resolution: self.supports_dynamic_resolution,
            supports_dynamic_fps: self.supports_dynamic_fps,
            preferred_formats: self.preferred_formats.clone(),
            max_resolution: (self.max_resolution.0, self.max_resolution.1),
            supported_fps: self.supported_fps.clone(),
        }
    }
}

/// A frame rate as the signed 32-bit value that the distance computation sees.
pub open spec fn fps_as_i32(v: u32) -> int {
    if v <= i32::MAX {
        v as int
    } else {
        v as int - 0x1_0000_0000
    }
}

/// Distance between a supported rate and a target, as `|fps as i32 - target as i32|`.
pub open spec fn fps_distance(fps: u32, target: u32) -> int {
    let d = fps_as_i32(fps) - fps_as_i32(target);
    if d < 0 {
        -d
    } else {
        d
    }
}

/// `|fps as i32 - target as i32|` stays within `i32` (the difference and its absolute value).
pub open spec fn fps_distance_fits(fps: u32, target: u32) -> bool {
    let d = fps_as_i32(fps) - fps_as_i32(target);
    i32::MIN < d <= i32::MAX
}

impl PlatformInfo {
    /// The values that describe platform `p`.
    pub open spec fn spec_is(&self, p: TargetPlatform) -> bool {
        match p {
            TargetPlatform::Windows => {
                &&& self.platform@ == "Windows"@
                &&& !self.supports_dynamic_resolution
                &&& !self.supports_dynamic_fps
                &&& self.preferred_formats@ == seq![VideoFormat::RGB24, VideoFormat::BGRA32]
                &&& self.max_resolution == (3840u32, 2160u32)
                &&& self.supported_fps@ == seq![15u32, 24, 30, 60]
            },
            TargetPlatform::MacOS => {
                &&& self.platform@ == "macOS"@
                &&& self.supports_dynamic_resolution
                &&& self.supports_dynamic_fps
                &&& self.preferred_formats@ == seq![VideoFormat::BGRA32, VideoFormat::NV12]
                &&& self.max_resolution == (3840u32, 2160u32)
                &&& self.supported_fps@ == seq![15u32, 24, 30, 60, 120]
            },
            TargetPlatform::Linux => {
                &&& self.platform@ == "Linux"@
                &&& self.supports_dynamic_resolution
                &&& self.supports_dynamic_fps
                &&& self.preferred_formats@ == seq![VideoFormat::YUV420, VideoFormat::RGB24]
                &&& self.max_resolution == (1920u32, 1080u32)
                &&& self.supported_fps@ == seq![15u32, 30, 60]
            },
        }
    }

    /// The capabilities of platform `p`.
    pub fn for_platform(p: TargetPlatform) -> (info: Self)
        ensures
            info.spec_is(p),
    {
        let mut formats: Vec<VideoFormat> = Vec::new();
        let mut rates: Vec<u32> = Vec::new();
        match p {
            TargetPlatform::Windows => {
                formats.push(VideoFormat::RGB24);
                formats.push(VideoFormat::BGRA32);
                rates.push(15);
                rates.push(24);
                rates.push(30);
                rates.push(60);
                assert(formats@ =~= seq![VideoFormat::RGB24, VideoFormat::BGRA32]);
                assert(rates@ =~= seq![15u32, 24, 30, 60]);
                PlatformInfo {
                    platform: String::from_str("Windows"),
                    supports_dynamic_resolution: false,
                    supports_dynamic_fps: false,
                    preferred_formats: formats,
                    max_resolution: (3840, 2160),
                    supported_fps: rates,
                }
            },
            TargetPlatform::MacOS => {
                formats.push(VideoFormat::BGRA32);
                formats.push(VideoFormat::NV12);
                rates.push(15);
                rates.push(24);
                rates.push(30);
                rates.push(60);
                rates.push(120);
                assert(formats@ =~= seq![VideoFormat::BGRA32, VideoFormat::NV12]);
                assert(rates@ =~= seq![15u32, 24, 30, 60, 120]);
                PlatformInfo {
                    platform: String::from_str("macOS"),
                    supports_dynamic_resolution: true,
                    supports_dynamic_fps: true,
                    preferred_formats: formats,
                    max_resolution: (3840, 2160),
                    supported_fps: rates,
                }
            },
            TargetPlatform::Linux => {
                formats.push(VideoFormat::YUV420);
                formats.push(VideoFormat::RGB24);
                rates.push(15);
                rates.push(30);
                rates.push(60);
                assert(formats@ =~= seq![VideoFormat::YUV420, VideoFormat::RGB24]);
                assert(rates@ =~= seq![15u32, 30, 60]);
                PlatformInfo {
                    platform: String::from_str("Linux"),
                    supports_dynamic_resolution: true,
                    supports_dynamic_fps: true,
                    preferred_formats: formats,
                    max_resolution: (1920, 1080),
                    supported_fps: rates,
                }
            },
        }
    }

    /// Information about the platform whose virtual webcam backend
    /// (`PlatformVirtualWebcam`, the Core Media I/O device model) this
    /// library drives: macOS.
    pub fn current() -> (info: Self)
        ensures
            info.spec_is(TargetPlatform::MacOS),
    {
        Self::for_platform(TargetPlatform::MacOS)
    }

    /// Whether a resolution is within the platform's maximum.
    pub fn supports_resolution(&self, width: u32, height: u32) -> (b: bool)
        ensures
            b == (width <= self.max_resolution.0 && height <= self.max_resolution.1),
    {
        width <= self.max_resolution.0 && height <= self.max_resolution.1
    }

    /// Whether a frame rate is one of the supported ones.
    pub fn supports_fps(&self, fps: u32) -> (b: bool)
        ensures
            b == self.supported_fps@.contains(fps),
    {
        let n = self.supported_fps.len();
        let mut i: usize = 0;
        while i < n
            invariant
                n == self.supported_fps@.len(),
                i <= n,
                forall|j: int| 0 <= j < i ==> self.supported_fps@[j] != fps,
            decreases n - i,
        {
            if self.supported_fps[i] == fps {
                return true;
            }
            i = i + 1;
        }
        false
    }

    /// The supported frame rate nearest to `target_fps` (the first such one when
    /// several are equally near); 30 when no rate is listed.
    pub fn closest_fps(&self, target_fps: u32) -> (r: u32)
        requires
            forall|j: int|
                0 <= j < self.supported_fps@.len() ==> fps_distance_fits(
                    #[trigger] self.supported_fps@[j],
                    target_fps,
                ),
        ensures
            self.supported_fps@.len() == 0 ==> r == 30,
            self.supported_fps@.len() > 0 ==> exists|i: int|
                0 <= i < self.supported_fps@.len() && r == self.supported_fps@[i]
                    && (forall|j: int|
                    0 <= j < self.supported_fps@.len() ==> fps_distance(r, target_fps)
                        <= fps_distance(#[trigger] self.supported_fps@[j], target_fps)) && (
                forall|j: int|
                    0 <= j < i ==> fps_distance(r, target_fps) < fps_distance(
                        #[trigger] self.supported_fps@[j],
                        target_fps,
                    )),
    {
        let n = self.supported_fps.len();
        if n == 0 {
            return 30;
        }
        let t: i64 = if target_fps <= 0x7fff_ffff {
            target_fps as i64
        } else {
            target_fps as i64 - 0x1_0000_0000
        };
        let mut best: usize = 0;
        let mut best_key: i64 = 0;
        let mut i: usize = 0;
        while i < n
            invariant
                n == self.supported_fps@.len(),
                n > 0,
                i <= n,
                t == fps_as_i32(target_fps),
                forall|j: int|
                    0 <= j < n ==> fps_distance_fits(#[trigger] self.supported_fps@[j], target_fps),
                i > 0 ==> best < i && best_key == fps_distance(self.supported_fps@[best as int], target_fps),
                i > 0 ==> forall|j: int| 0 <= j < i ==> best_key <= fps_distance(#[trigger] self.supported_fps@[j], target_fps),
                i > 0 ==> forall|j: int| 0 <= j < best ==> best_key < fps_distance(#[trigger] self.supported_fps@[j], target_fps),
            decreases n - i,
        {
            let f = self.supported_fps[i];
            proof {
                assert(fps_distance_fits(self.supported_fps@[i as int], target_fps));
            }
            let a: i64 = if f <= 0x7fff_ffff {
                f as i64
            } else {
                f as i64 - 0x1_0000_0000
            };
            let d: i64 = a - t;
            let key: i64 = if d < 0 {
                -d
            } else {
                d
            };
            if i == 0 || key < best_key {
                best = i;
                best_key = key;
            }
            i = i + 1;
        }
        self.supported_fps[best]
    }
}

/// Whether converting a `width` x `height` frame to `target` stays within `u32` arithmetic.
pub open spec fn conversion_fits(width: u32, height: u32, target: VideoFormat) -> bool {
    match target {
        VideoFormat::BGRA32 => width * height * 4 <= u32::MAX,
        _ => width * height * 3 <= u32::MAX,
    }
}

/// Byte `i` of frame `f` laid out as `target`:
/// - RGB24: red, green and blue of each pixel, row by row;
/// - BGRA32: blue, green, red and alpha of each pixel, row by row;
/// - YUV420: the Y plane (one byte per pixel), then the U plane and the V
///   plane, one sample per 2x2 block (the block's top-left pixel), then 128;
/// - NV12: the Y plane, then U and V interleaved per 2x2 block, then 128.
pub open spec fn converted_byte(f: VideoFrame, target: VideoFormat, i: int) -> u8 {
    let w = f.width as int;
    let h = f.height as int;
    let cw = w / 2;
    let ch = h / 2;
    match target {
        VideoFormat::RGB24 => {
            let p = i / 3;
            let c = frame_rgba(f, p % w, p / w);
            if i % 3 == 0 { c.0 } else if i % 3 == 1 { c.1 } else { c.2 }
        },
        VideoFormat::BGRA32 => {
            let p = i / 4;
            let c = frame_rgba(f, p % w, p / w);
            if i % 4 == 0 { c.2 } else if i % 4 == 1 { c.1 } else if i % 4 == 2 { c.0 } else { c.3 }
        },
        VideoFormat::YUV420 => {
            if i < w * h {
                frame_yuv(f, i % w, i / w).0
            } else if i - w * h < cw * ch {
                let k = i - w * h;
                frame_yuv(f, 2 * (k % cw), 2 * (k / cw)).1
            } else if i - w * h < 2 * (cw * ch) {
                let k = i - w * h - cw * ch;
                frame_yuv(f, 2 * (k % cw), 2 * (k / cw)).2
            } else {
                128
            }
        },
        VideoFormat::NV12 => {
            if i < w * h {
                frame_yuv(f, i % w, i / w).0
            } else if i - w * h < 2 * (cw * ch) {
                let k = (i - w * h) / 2;
                let c = frame_yuv(f, 2 * (k % cw), 2 * (k / cw));
                if (i - w * h) % 2 == 0 { c.1 } else { c.2 }
            } else {
                128
            }
        },
    }
}

/// Pixel `p` of a `w`-wide, `h`-high raster is at column `p % w`, row `p / w`.
proof fn lemma_pixel_of_index(p: int, w: int, h: int)
    requires
        0 <= p < w * h,
        0 < w,
    ensures
        0 <= p % w < w,
        0 <= p / w < h,
{
    vstd::arithmetic::div_mod::lemma_fundamental_div_mod(p, w);
    assert(0 <= p / w < h) by (nonlinear_arith)
        requires
            0 <= p < w * h,
            0 < w,
            p == w * (p / w) + p % w,
            0 <= p % w < w,
    ;
}

/// Byte `i` of `frame` laid out as `target`.
fn converted_byte_of(frame: &VideoFrame, target: VideoFormat, i: u64) -> (b: u8)
    requires
        conversion_fits(frame.width, frame.height, target),
        i < target.spec_frame_size(frame.width as int, frame.height as int),
    ensures
        b == converted_byte(*frame, target, i as int),
{
    let w = frame.width as u64;
    let h = frame.height as u64;
    let cw = w / 2;
    let ch = h / 2;
    proof {
        assert(w * h <= u32::MAX);
        assert(cw * ch * 4 <= w * h) by (nonlinear_arith)
            requires
                cw == w / 2,
                ch == h / 2,
        ;
    }
    match target {
        VideoFormat::RGB24 => {
            let p = i / 3;
            proof {
                lemma_pixel_of_index(p as int, w as int, h as int);
            }
            let c = rgba_of(frame, p % w, p / w);
            if i % 3 == 0 { c.0 } else if i % 3 == 1 { c.1 } else { c.2 }
        },
        VideoFormat::BGRA32 => {
            let p = i / 4;
            proof {
                lemma_pixel_of_index(p as int, w as int, h as int);
            }
            let c = rgba_of(frame, p % w, p / w);
            if i % 4 == 0 { c.2 } else if i % 4 == 1 { c.1 } else if i % 4 == 2 { c.0 } else { c.3 }
        },
        VideoFormat::YUV420 => {
            if i < w * h {
                proof {
                    lemma_pixel_of_index(i as int, w as int, h as int);
                }
                yuv_of(frame, i % w, i / w).0
            } else if i - w * h < cw * ch {
                let k = i - w * h;
                proof {
                    lemma_pixel_of_index(k as int, cw as int, ch as int);
                }
                yuv_of(frame, 2 * (k % cw), 2 * (k / cw)).1
            } else if i - w * h < 2 * (cw * ch) {
                let k = i - w * h - cw * ch;
                proof {
                    lemma_pixel_of_index(k as int, cw as int, ch as int);
                }
                yuv_of(frame, 2 * (k % cw), 2 * (k / cw)).2
            } else {
                128
            }
        },
        VideoFormat::NV12 => {
            if i < w * h {
                proof {
                    lemma_pixel_of_index(i as int, w as int, h as int);
                }
                yuv_of(frame, i % w, i / w).0
            } else if i - w * h < 2 * (cw * ch) {
                let k = (i - w * h) / 2;
                proof {
                    lemma_pixel_of_index(k as int, cw as int, ch as int);
                }
                let c = yuv_of(frame, 2 * (k % cw), 2 * (k / cw));
                if (i - w * h) % 2 == 0 { c.1 } else { c.2 }
            } else {
                128
            }
        },
    }
}

/// Convert a frame to the byte layout of `target`: a buffer of the target's
/// frame size whose byte `i` is `converted_byte(frame, target, i)`. Pixels are
/// read from the frame in its own layout (bytes past the end of its data
/// read as zero) and converted between RGB and YUV by BT.601.
pub fn convert_frame(frame: &VideoFrame, target_format: VideoFormat) -> (r: Result<Vec<u8>, WebcamError>)
    requires
        conversion_fits(frame.width, frame.height, target_format),
    ensures
        r matches Ok(v) && v@ == Seq::new(
            target_format.spec_frame_size(frame.width as int, frame.height as int) as nat,
            |i: int| converted_byte(*frame, target_format, i),
        ),
{
    let size = target_format.frame_size(frame.width, frame.height);
    let mut out: Vec<u8> = Vec::with_capacity(size);
    let mut i: usize = 0;
    while i < size
        invariant
            conversion_fits(frame.width, frame.height, target_format),
            size == target_format.spec_frame_size(frame.width as int, frame.height as int),
            i <= size,
            out@ == Seq::new(i as nat, |j: int| converted_byte(*frame, target_format, j)),
        decreases size - i,
    {
        let b = converted_byte_of(frame, target_format, i as u64);
        out.push(b);
        i = i + 1;
        assert(out@ =~= Seq::new(i as nat, |j: int| converted_byte(*frame, target_format, j)));
    }
    assert(out@ =~= Seq::new(size as nat, |j: int| converted_byte(*frame, target_format, j)));
    Ok(out)
}


/// The buffer after the V4L2 test pattern is drawn over `old` for a
/// `w` x `h` device: a luminance ramp `(x + y) % 256` over the first `w * h`
/// bytes, then neutral chroma (128) over the two quarter-size planes, bytes
/// past the buffer's end being skipped.
pub open spec fn v4l2_pattern(old: Seq<u8>, w: int, h: int) -> Seq<u8> {
    let y_size = w * h;
    let uv_size = y_size / 4;
    Seq::new(
        old.len(),
        |k: int|
            if k < y_size {
                ((k % w + k / w) % 256) as u8
            } else if k < y_size + 2 * uv_size {
                128u8
            } else {
                old[k]
            },
    )
}

/// A virtual webcam that writes frames to a V4L2 loopback device. The device
/// discovery and the writes are done by the caller; this type keeps the state
/// and computes the bytes that go to the device.
pub struct LinuxVirtualWebcam {
    pub device_name: String,
    pub width: u32,
    pub height: u32,
    pub fps: u32,
    pub format: VideoFormat,
    pub is_active: bool,
    pub device_path: Option<String>,
}

impl LinuxVirtualWebcam {
    /// A new, inactive V4L2 webcam (YUV420 output, no device yet).
    pub fn new(device_name: String, width: u32, height: u32, fps: u32) -> (r: Result<Self, WebcamError>)
        ensures
            r matches Ok(w) && w.device_name@ == device_name@ && w.width == width
                && w.height == height && w.fps == fps && w.format == VideoFormat::YUV420
                && !w.is_active && w.device_path is None,
    {
        Ok(LinuxVirtualWebcam {
            device_name,
            width,
            height,
            fps,
            format: VideoFormat::YUV420,
            is_active: false,
            device_path: None,
        })
    }

    pub fn is_active(&self) -> (b: bool)
        ensures
            b == self.is_active,
    {
        self.is_active
    }

    pub fn get_device_name(&self) -> (s: &str)
        ensures
            s@ == self.device_name@,
    {
        self.device_name.as_str()
    }

    /// Change the resolution; refused while active.
    pub fn set_resolution(&mut self, width: u32, height: u32) -> (r: Result<(), WebcamError>)
        ensures
            old(self).is_active ==> r == Err::<(), WebcamError>(
                WebcamError::ResolutionLockedWhileActive,
            ) && *final(self) == *old(self),
            !old(self).is_active ==> r is Ok && final(self).width == width && final(self).height
                == height && final(self).fps == old(self).fps && final(self).is_active == old(self).is_active && final(self).device_name == old(self).device_name
                && final(self).device_path == old(self).device_path && final(self).format == old(self).format,
    {
        if self.is_active {
            return Err(WebcamError::ResolutionLockedWhileActive);
        }
        self.width = width;
        self.height = height;
        Ok(())
    }

    /// Change the frame rate; refused while active.
    pub fn set_fps(&mut self, fps: u32) -> (r: Result<(), WebcamError>)
        ensures
            old(self).is_active ==> r == Err::<(), WebcamError>(WebcamError::FpsLockedWhileActive)
                && *final(self) == *old(self),
            !old(self).is_active ==> r is Ok && final(self).fps == fps && final(self).width == old(self).width && final(self).height == old(self).height && final(self).is_active == old(self).is_active && final(self).device_name == old(self).device_name
                && final(self).device_path == old(self).device_path && final(self).format == old(self).format,
    {
        if self.is_active {
            return Err(WebcamError::FpsLockedWhileActive);
        }
        self.fps = fps;
        Ok(())
    }

    /// Record that the loopback device at `device_path` was opened.
    pub fn mark_started(&mut self, device_path: String)
        ensures
            final(self).is_active,
            final(self).device_path == Some(device_path),
            final(self).device_name == old(self).device_name,
            final(self).width == old(self).width,
            final(self).height == old(self).height,
            final(self).fps == old(self).fps,
            final(self).format == old(self).format,
    {
        self.device_path = Some(device_path);
        self.is_active = true;
    }

    /// Record that the device was closed (the device path is kept).
    pub fn mark_stopped(&mut self)
        ensures
            !final(self).is_active,
            final(self).device_path == old(self).device_path,
            final(self).device_name == old(self).device_name,
            final(self).width == old(self).width,
            final(self).height == old(self).height,
            final(self).fps == old(self).fps,
            final(self).format == old(self).format,
    {
        self.is_active = false;
    }

    /// The bytes to write to the device for `frame`; refused while inactive.
    pub fn frame_for_device(&self, frame: &VideoFrame) -> (r: Result<Vec<u8>, WebcamError>)
        requires
            self.width * self.height * 3 <= u32::MAX,
        ensures
            !self.is_active ==> r == Err::<Vec<u8>, WebcamError>(WebcamError::NotActive),
            self.is_active ==> (r matches Ok(d) && d@ == v4l2_pattern(
                Seq::new(
                    ((self.width * self.height * 3) / 2) as nat,
                    |i: int| 0u8,
                ),
                self.width as int,
                self.height as int,
            )),
    {
        if !self.is_active {
            return Err(WebcamError::NotActive);
        }
        self.convert_frame_for_v4l2(frame)
    }

    /// Convert a frame to the device's YUV420 layout: a buffer of `3/2` bytes per
    /// pixel of the device's resolution holding the test pattern.
    pub fn convert_frame_for_v4l2(&self, frame: &VideoFrame) -> (r: Result<Vec<u8>, WebcamError>)
        requires
            self.width * self.height * 3 <= u32::MAX,
        ensures
            r matches Ok(d) && d@ == v4l2_pattern(
                Seq::new(((self.width * self.height * 3) / 2) as nat, |i: int| 0u8),
                self.width as int,
                self.height as int,
            ),
    {
        let expected_size = (self.width * self.height * 3 / 2) as usize;
        let mut yuv_data = zeroed_bytes(expected_size);
        proof {
            assert(self.width * self.height <= (self.width * self.height * 3) / 2) by (nonlinear_arith)
                requires
                    self.width * self.height >= 0,
            ;
        }
        self.create_test_pattern(&mut yuv_data);
        Ok(yuv_data)
    }

    /// Draw the test pattern into `buffer` (see `v4l2_pattern`).
    pub fn create_test_pattern(&self, buffer: &mut Vec<u8>)
        requires
            self.width * self.height <= u32::MAX,
            self.width * self.height * 3 / 2 <= usize::MAX,
            old(buffer)@.len() >= self.width * self.height,
        ensures
            final(buffer)@ == v4l2_pattern(old(buffer)@, self.width as int, self.height as int),
    {
        let w = self.width;
        let h = self.height;
        let y_size = (w * h) as usize;
        let uv_size = y_size / 4;
        let len = buffer.len();
        assert(y_size + 2 * uv_size <= usize::MAX);
        let ghost orig = buffer@;
        let ghost target = v4l2_pattern(orig, w as int, h as int);
        let mut y: u32 = 0;
        while y < h
            invariant
                y <= h,
                w == self.width,
                h == self.height,
                w * h <= u32::MAX,
                y_size == w * h,
                len == orig.len(),
                buffer@.len() == len,
                len >= w * h,
                target == v4l2_pattern(orig, w as int, h as int),
                forall|k: int| 0 <= k < y * w ==> buffer@[k] == target[k],
                forall|k: int| y * w <= k < len ==> buffer@[k] == orig[k],
            decreases h - y,
        {
            let mut x: u32 = 0;
            while x < w
                invariant
                    y < h,
                    x <= w,
                    w == self.width,
                    h == self.height,
                    w * h <= u32::MAX,
                    y_size == w * h,
                    len == orig.len(),
                    buffer@.len() == len,
                    len >= w * h,
                    target == v4l2_pattern(orig, w as int, h as int),
                    forall|k: int| 0 <= k < y * w + x ==> buffer@[k] == target[k],
                    forall|k: int| y * w + x <= k < len ==> buffer@[k] == orig[k],
                decreases w - x,
            {
                proof {
                    lemma_pixel_index(x as int, y as int, w as int, h as int);
                    assert(x + y < w * h) by (nonlinear_arith)
                        requires
                            0 <= x < w,
                            0 <= y < h,
                    ;
                }
                let idx = (y * w + x) as usize;
                if idx < y_size {
                    buffer.set(idx, ((x + y) % 256) as u8);
                }
                proof {
                    let k = y * w + x;
                    assert(k < len);
                    assert(target[k] == ((k % (w as int) + k / (w as int)) % 256) as u8);
                    assert(buffer@[k] == target[k]);
                }
                x = x + 1;
            }
            proof {
                assert((y + 1) * w == y * w + w) by (nonlinear_arith);
            }
            y = y + 1;
        }
        proof {
            assert(h * w == w * h) by (nonlinear_arith);
        }
        let mut i: usize = 0;
        while i < uv_size
            invariant
                y_size == w * h,
                uv_size == y_size / 4,
                y_size + 2 * uv_size <= usize::MAX,
                i <= uv_size,
                len == orig.len(),
                buffer@.len() == len,
                len >= w * h,
                target == v4l2_pattern(orig, w as int, h as int),
                forall|k: int| 0 <= k < y_size ==> buffer@[k] == target[k],
                forall|k: int| y_size <= k < y_size + i && k < len ==> buffer@[k] == target[k],
                forall|k: int| y_size + i <= k < len ==> buffer@[k] == orig[k],
            decreases uv_size - i,
        {
            if y_size + i < len {
                buffer.set(y_size + i, 128);
            }
            i = i + 1;
        }
        let mut i: usize = 0;
        while i < uv_size
            invariant
                y_size == w * h,
                uv_size == y_size / 4,
                y_size + 2 * uv_size <= usize::MAX,
                i <= uv_size,
                len == orig.len(),
                buffer@.len() == len,
                len >= w * h,
                target == v4l2_pattern(orig, w as int, h as int),
                forall|k: int| 0 <= k < y_size + uv_size + i && k < len ==> buffer@[k] == target[k],
                forall|k: int| y_size + uv_size + i <= k < len ==> buffer@[k] == orig[k],
            decreases uv_size - i,
        {
            if y_size + uv_size + i < len {
                buffer.set(y_size + uv_size + i, 128);
            }
            i = i + 1;
        }
        assert(buffer@ =~= target);
    }
}

/// A virtual webcam built on a DirectShow filter graph with a source filter
/// (Windows). The graph and the filter exist while the webcam is active.
pub struct WindowsVirtualWebcam {
    pub device_name: String,
    pub width: u32,
    pub height: u32,
    pub fps: u32,
    pub format: VideoFormat,
    pub is_active: bool,
    pub has_filter_graph: bool,
    pub has_source_filter: bool,
}

impl WindowsVirtualWebcam {
    /// The filter graph and the source filter exist exactly while the webcam is active.
    pub open spec fn spec_graph_matches(&self) -> bool {
        self.has_filter_graph == self.is_active && self.has_source_filter == self.is_active
    }
}

impl VirtualWebcamBackend for WindowsVirtualWebcam {
    open spec fn spec_active(&self) -> bool {
        self.is_active
    }

    open spec fn spec_name(&self) -> Seq<char> {
        self.device_name@
    }

    open spec fn spec_width(&self) -> u32 {
        self.width
    }

    open spec fn spec_height(&self) -> u32 {
        self.height
    }

    open spec fn spec_fps(&self) -> u32 {
        self.fps
    }

    open spec fn spec_can_send(&self) -> bool {
        true
    }

    fn new(device_name: String, width: u32, height: u32, fps: u32) -> (r: Result<Self, WebcamError>)
        ensures
            r matches Ok(w) && w.format == VideoFormat::RGB24 && w.spec_graph_matches(),
    {
        Ok(WindowsVirtualWebcam {
            device_name,
            width,
            height,
            fps,
            format: VideoFormat::RGB24,
            is_active: false,
            has_filter_graph: false,
            has_source_filter: false,
        })
    }

    fn start(&mut self) -> (r: Result<(), WebcamError>)
        ensures
            old(self).spec_graph_matches() ==> final(self).spec_graph_matches(),
            final(self).format == old(self).format,
    {
        if self.is_active {
            return Ok(());
        }
        self.has_filter_graph = true;
        self.has_source_filter = true;
        self.is_active = true;
        Ok(())
    }

    fn stop(&mut self) -> (r: Result<(), WebcamError>)
        ensures
            old(self).spec_graph_matches() ==> final(self).spec_graph_matches(),
            final(self).format == old(self).format,
    {
        if !self.is_active {
            return Ok(());
        }
        self.has_filter_graph = false;
        self.has_source_filter = false;
        self.is_active = false;
        Ok(())
    }

    fn send_frame(&mut self, frame: &VideoFrame) -> (r: Result<(), WebcamError>)
        ensures
            old(self).is_active ==> r is Ok,
            *final(self) == *old(self),
    {
        if !self.is_active {
            return Err(WebcamError::NotActive);
        }
        Ok(())
    }

    fn is_active(&self) -> (b: bool) {
        self.is_active
    }

    fn get_device_name(&self) -> (s: &str) {
        self.device_name.as_str()
    }

    fn set_resolution(&mut self, width: u32, height: u32) -> (r: Result<(), WebcamError>) {
        if self.is_active {
            return Err(WebcamError::ResolutionLockedWhileActive);
        }
        self.width = width;
        self.height = height;
        Ok(())
    }

    fn set_fps(&mut self, fps: u32) -> (r: Result<(), WebcamError>) {
        if self.is_active {
            return Err(WebcamError::FpsLockedWhileActive);
        }
        self.fps = fps;
        Ok(())
    }
}

/// The major type of a DirectShow media type.
#[derive(Debug, Clone, Copy, PartialEq, Eq, Structural)]
pub enum MediaMajorType {
    Video,
}

/// The subtype of a DirectShow video media type.
#[derive(Debug, Clone, Copy, PartialEq, Eq, Structural)]
pub enum MediaSubType {
    /// Packed 24-bit RGB.
    Rgb24,
    /// Packed 32-bit BGRA.
    Rgb32,
    /// Planar YUV 4:2:0.
    I420,
    /// Y plane with interleaved U and V at 4:2:0.
    Nv12,
}

/// The DirectShow subtype of a webcam pixel layout.
pub open spec fn spec_sub_type(format: VideoFormat) -> MediaSubType {
    match format {
        VideoFormat::RGB24 => MediaSubType::Rgb24,
        VideoFormat::BGRA32 => MediaSubType::Rgb32,
        VideoFormat::YUV420 => MediaSubType::I420,
        VideoFormat::NV12 => MediaSubType::Nv12,
    }
}

/// A DirectShow media type description (Windows): a video of `width` x
/// `height` pixels of subtype `sub_type`, with rows `stride` bytes apart
/// and frames of `frame_size` bytes.
#[derive(Debug, Clone, Copy, PartialEq, Eq, Structural)]
pub struct MediaType {
    pub major_type: MediaMajorType,
    pub sub_type: MediaSubType,
    pub width: u32,
    pub height: u32,
    pub stride: u32,
    pub frame_size: usize,
}

/// The DirectShow media type for `width` x `height` frames in `format`.
pub fn create_media_type(width: u32, height: u32, format: VideoFormat) -> (r: Result<MediaType, WebcamError>)
    requires
        conversion_fits(width, height, format),
        width * format.spec_bytes_per_pixel() <= u32::MAX,
    ensures
        r matches Ok(mt) && mt == (MediaType {
            major_type: MediaMajorType::Video,
            sub_type: spec_sub_type(format),
            width,
            height,
            stride: format.spec_stride(width as int) as u32,
            frame_size: format.spec_frame_size(width as int, height as int) as usize,
        }),
{
    let sub_type = match format {
        VideoFormat::RGB24 => MediaSubType::Rgb24,
        VideoFormat::BGRA32 => MediaSubType::Rgb32,
        VideoFormat::YUV420 => MediaSubType::I420,
        VideoFormat::NV12 => MediaSubType::Nv12,
    };
    Ok(MediaType {
        major_type: MediaMajorType::Video,
        sub_type,
        width,
        height,
        stride: format.stride(width),
        frame_size: format.frame_size(width, height),
    })
}

} // verus!
