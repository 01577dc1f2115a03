use vstd::prelude::*;
use crate::camera::{lemma_rgba_byte, rgba_raster};
use crate::frame::{VideoFormat, VideoFrame, lemma_pixel_index, zeroed_bytes};
use crate::ident::NodeId;
use crate::params::{NodeConfig, NodeProperties, ParamValue, ParameterDefinition, ParameterType};
use crate::text::{parse_u32, spec_parse_u32};
use crate::types::{ConnectionType, InputType, NodeType};

verus! {

/// Why an input node's settings cannot be used.
#[derive(Debug)]
pub enum InputError {
    /// The resolution is not of the form `WIDTHxHEIGHT`.
    InvalidResolutionFormat { resolution: String },
    /// The width is not an unsigned 32-bit number.
    InvalidWidth { text: String },
    /// The height is not an unsigned 32-bit number.
    InvalidHeight { text: String },
}

impl InputError {
    /// The text of the error.
    pub open spec fn spec_message(&self) -> Seq<char> {
        match self {
            InputError::InvalidResolutionFormat { resolution } => "Invalid resolution format: "@ + resolution@,
            InputError::InvalidWidth { text } => "Invalid width: "@ + text@,
            InputError::InvalidHeight { text } => "Invalid height: "@ + text@,
        }
    }
}

/// How many `x` characters `s` holds.
pub open spec fn x_count(s: Seq<char>) -> nat
    decreases s.len(),
{
    if s.len() == 0 {
        0
    } else {
        x_count(s.drop_last()) + (if s.last() == 'x' {
            1nat
        } else {
            0
        })
    }
}

/// Where the first `x` of `s` stands (-1 when there is none).
pub open spec fn first_x(s: Seq<char>) -> int
    decreases s.len(),
{
    if s.len() == 0 {
        -1
    } else if first_x(s.drop_last()) >= 0 {
        first_x(s.drop_last())
    } else if s.last() == 'x' {
        s.len() - 1
    } else {
        -1
    }
}

/// The result of reading a resolution text `WIDTHxHEIGHT`: it must hold
/// exactly one `x`, with an unsigned 32-bit number on each side.
pub open spec fn is_resolution_result(r: Result<(u32, u32), InputError>, s: Seq<char>) -> bool {
    if x_count(s) != 1 {
        r matches Err(InputError::InvalidResolutionFormat { resolution }) && resolution@ == s
    } else {
        let w = s.take(first_x(s));
        let h = s.skip(first_x(s) + 1);
        match (spec_parse_u32(w), spec_parse_u32(h)) {
            (None, _) => r matches Err(InputError::InvalidWidth { text }) && text@ == w,
            (Some(_), None) => r matches Err(InputError::InvalidHeight { text }) && text@ == h,
            (Some(a), Some(b)) => r == Ok::<(u32, u32), InputError>((a, b)),
        }
    }
}

/// Read a resolution text `WIDTHxHEIGHT`.
pub fn parse_resolution_text(s: &str) -> (r: Result<(u32, u32), InputError>)
    ensures
        is_resolution_result(r, s@),
{
    let n = s.unicode_len();
    let mut count: usize = 0;
    let mut pos: usize = 0;
    let mut i: usize = 0;
    while i < n
        invariant
            n == s@.len(),
            i <= n,
            count == x_count(s@.take(i as int)),
            count <= i,
            count > 0 ==> pos == first_x(s@.take(i as int)) && pos < i,
            count == 0 ==> first_x(s@.take(i as int)) == -1,
            first_x(s@.take(i as int)) >= 0 ==> s@[first_x(s@.take(i as int))] == 'x',
        decreases n - i,
    {
        let c = s.get_char(i);
        proof {
            assert(s@.take(i + 1).drop_last() =~= s@.take(i as int));
            assert(s@.take(i + 1).last() == c);
        }
        if c == 'x' {
            if count == 0 {
                pos = i;
            }
            count = count + 1;
        }
        i = i + 1;
    }
    proof {
        assert(s@.take(n as int) =~= s@);
    }
    if count != 1 {
        return Err(InputError::InvalidResolutionFormat { resolution: s.to_string() });
    }
    let w = s.substring_char(0, pos);
    let h = s.substring_char(pos + 1, n);
    proof {
        assert(w@ =~= s@.take(first_x(s@)));
        assert(h@ =~= s@.skip(first_x(s@) + 1));
    }
    let width = match parse_u32(w) {
        Some(v) => v,
        None => {
            return Err(InputError::InvalidWidth { text: w.to_string() });
        },
    };
    let height = match parse_u32(h) {
        Some(v) => v,
        None => {
            return Err(InputError::InvalidHeight { text: h.to_string() });
        },
    };
    Ok((width, height))
}

/// Parameters of the camera input node, in table order.
pub open spec fn is_camera_input_parameters(p: Seq<(String, ParameterDefinition)>) -> bool {
    &&& p.len() == 3
    &&& p[0].0@ == "device_id"@
    &&& p[0].1.name@ == "Device ID"@
    &&& p[0].1.parameter_type is String
    &&& p[0].1.default_value.spec_as_str() == Some("default"@)
    &&& p[0].1.min_value is None
    &&& p[0].1.max_value is None
    &&& p[0].1.description@ == "Camera device identifier"@
    &&& p[1].0@ == "resolution"@
    &&& p[1].1.name@ == "Resolution"@
    &&& (p[1].1.parameter_type matches ParameterType::Enum(opts) && opts@.len() == 3 && opts@[0]@ == "1920x1080"@
        && opts@[1]@ == "1280x720"@ && opts@[2]@ == "640x480"@)
    &&& p[1].1.default_value.spec_as_str() == Some("1920x1080"@)
    &&& p[1].1.min_value is None
    &&& p[1].1.max_value is None
    &&& p[1].1.description@ == "Camera resolution"@
    &&& p[2].0@ == "fps"@
    &&& p[2].1.name@ == "Frame Rate"@
    &&& p[2].1.parameter_type is Integer
    &&& p[2].1.default_value == ParamValue::Integer(30)
    &&& p[2].1.min_value == Some(ParamValue::Integer(1))
    &&& p[2].1.max_value == Some(ParamValue::Integer(60))
    &&& p[2].1.description@ == "Frames per second"@
}

/// The pixel of the fallback frame: diagonal stripes of red and dark red.
pub open spec fn stripe_pixel() -> spec_fn(int, int) -> Seq<u8> {
    |x: int, y: int|
        if (x + y) % 32 < 16 {
            seq![255u8, 0u8, 0u8, 255u8]
        } else {
            seq![128u8, 0u8, 0u8, 255u8]
        }
}

/// The settings a camera is opened with.
#[derive(Debug, Clone, Copy)]
pub struct CameraSettings {
    pub device_index: u32,
    pub width: u32,
    pub height: u32,
    pub fps: u32,
}

/// An input node that reads a camera.
#[derive(Debug)]
pub struct CameraInputNode {
    id: NodeId,
    config: NodeConfig,
    properties: NodeProperties,
}

impl CameraInputNode {
    /// The node's parameter values.
    pub closed spec fn spec_config(&self) -> NodeConfig {
        self.config
    }

    /// The node's properties.
    pub closed spec fn spec_properties(&self) -> NodeProperties {
        self.properties
    }

    /// The node's identifier.
    pub closed spec fn spec_id(&self) -> NodeId {
        self.id
    }

    /// The resolution text in use: the `resolution` parameter when it is a
    /// text, else `1920x1080`.
    pub open spec fn spec_resolution_text(&self) -> Seq<char> {
        match self.spec_config().spec_get("resolution"@) {
            Some(v) => match v.spec_as_str() {
                Some(s) => s,
                None => "1920x1080"@,
            },
            None => "1920x1080"@,
        }
    }

    /// The size of the fallback frame: the resolution in use, or 1920 x 1080
    /// when it cannot be read.
    pub open spec fn spec_fallback_size(&self) -> (u32, u32) {
        let x = self.spec_resolution_text();
        if x_count(x) == 1 {
            match (spec_parse_u32(x.take(first_x(x))), spec_parse_u32(x.skip(first_x(x) + 1))) {
                (Some(a), Some(b)) => (a, b),
                _ => (1920u32, 1080u32),
            }
        } else {
            (1920u32, 1080u32)
        }
    }

    /// A camera input node with identifier `id` and the given parameter values.
    pub fn new(id: NodeId, config: NodeConfig) -> (r: Result<Self, InputError>)
        ensures
            r matches Ok(n) && {
                &&& n.spec_id() == id
                &&& n.spec_config() == config
                &&& n.spec_properties().id == id
                &&& n.spec_properties().name@ == "Camera Input"@
                &&& n.spec_properties().node_type == NodeType::Input(InputType::Camera)
                &&& n.spec_properties().input_types@.len() == 0
                &&& n.spec_properties().output_types@ == seq![ConnectionType::RenderData, ConnectionType::Audio]
                &&& is_camera_input_parameters(n.spec_properties().parameters@)
            },
    {
        let mut parameters: Vec<(String, ParameterDefinition)> = Vec::new();
        parameters.push((
            String::from_str("device_id"),
            ParameterDefinition {
                name: String::from_str("Device ID"),
                parameter_type: ParameterType::String,
                default_value: ParamValue::Text(String::from_str("default")),
                min_value: None,
                max_value: None,
                description: String::from_str("Camera device identifier"),
            },
        ));
        let options = vec![String::from_str("1920x1080"), String::from_str("1280x720"), String::from_str("640x480")];
        parameters.push((
            String::from_str("resolution"),
            ParameterDefinition {
                name: String::from_str("Resolution"),
                parameter_type: ParameterType::Enum(options),
                default_value: ParamValue::Text(String::from_str("1920x1080")),
                min_value: None,
                max_value: None,
                description: String::from_str("Camera resolution"),
            },
        ));
        parameters.push((
            String::from_str("fps"),
            ParameterDefinition {
                name: String::from_str("Frame Rate"),
                parameter_type: ParameterType::Integer,
                default_value: ParamValue::Integer(30),
                min_value: Some(ParamValue::Integer(1)),
                max_value: Some(ParamValue::Integer(60)),
                description: String::from_str("Frames per second"),
            },
        ));
        let output_types = vec![ConnectionType::RenderData, ConnectionType::Audio];
        let properties = NodeProperties {
            id,
            name: String::from_str("Camera Input"),
            node_type: NodeType::Input(InputType::Camera),
            input_types: Vec::new(),
            output_types,
            parameters,
        };
        Ok(CameraInputNode { id, config, properties })
    }

    /// The node's properties.
    pub fn get_properties(&self) -> (p: &NodeProperties)
        ensures
            *p == self.spec_properties(),
    {
        &self.properties
    }

    /// A copy of the value of parameter `key`, if set.
    pub fn get_parameter(&self, key: &str) -> (r: Option<ParamValue>)
        ensures
            match r {
                Some(v) => self.spec_config().spec_get(key@) matches Some(w) && v.same(w),
                None => self.spec_config().spec_get(key@) is None,
            },
    {
        match self.config.get(key) {
            Some(v) => Some(v.duplicate()),
            None => None,
        }
    }

    /// Set parameter `key` to `value`.
    pub fn set_parameter(&mut self, key: &str, value: ParamValue) -> (r: Result<(), InputError>)
        ensures
            r is Ok,
            forall|k: Seq<char>| #[trigger] final(self).spec_config().spec_get(k) == (if k == key@ {
                Some(value)
            } else {
                old(self).spec_config().spec_get(k)
            }),
            final(self).spec_properties() == old(self).spec_properties(),
            final(self).spec_id() == old(self).spec_id(),
    {
        self.config.insert(key, value);
        Ok(())
    }

    /// The resolution in use, as width and height.
    pub fn parse_resolution(&self) -> (r: Result<(u32, u32), InputError>)
        ensures
            is_resolution_result(r, self.spec_resolution_text()),
    {
        let text: &str = match self.config.get("resolution") {
            Some(v) => match v.as_str() {
                Some(s) => s,
                None => "1920x1080",
            },
            None => "1920x1080",
        };
        parse_resolution_text(text)
    }

    /// The settings the camera is opened with: the device index read from
    /// `device_id` (0 unless it is an unsigned number), the resolution, and
    /// `fps` (30 unless it is a non-negative integer; its low 32 bits).
    pub fn camera_settings(&self) -> (r: Result<CameraSettings, InputError>)
        ensures
            match r {
                Ok(c) => {
                    &&& is_resolution_result(Ok((c.width, c.height)), self.spec_resolution_text())
                    &&& c.device_index == (match self.spec_config().spec_get("device_id"@) {
                        Some(v) => match v.spec_as_str() {
                            Some(s) => match spec_parse_u32(s) {
                                Some(i) => i,
                                None => 0u32,
                            },
                            None => 0u32,
                        },
                        None => 0u32,
                    })
                    &&& c.fps == (match self.spec_config().spec_get("fps"@) {
                        Some(v) => match v.spec_as_u64() {
                            Some(f) => f as u32,
                            None => 30u32,
                        },
                        None => 30u32,
                    })
                },
                Err(e) => is_resolution_result(Err(e), self.spec_resolution_text()),
            },
    {
        let device_index: u32 = match self.config.get("device_id") {
            Some(v) => match v.as_str() {
                Some(s) => match parse_u32(s) {
                    Some(i) => i,
                    None => 0,
                },
                None => 0,
            },
            None => 0,
        };
        let (width, height) = match self.parse_resolution() {
            Ok(d) => d,
            Err(e) => {
                return Err(e);
            },
        };
        let fps: u64 = match self.config.get("fps") {
            Some(v) => match v.as_u64() {
                Some(f) => f,
                None => 30,
            },
            None => 30,
        };
        Ok(CameraSettings { device_index, width, height, fps: fps as u32 })
    }

    /// The frame shown when the camera cannot deliver: diagonal red stripes
    /// at the resolution in use (1920 x 1080 when it cannot be read).
    pub fn create_fallback_frame(&self) -> (f: VideoFrame)
        requires
            self.spec_fallback_size().0 * self.spec_fallback_size().1 * 4 <= u32::MAX,
        ensures
            f.width == self.spec_fallback_size().0,
            f.height == self.spec_fallback_size().1,
            f.format == VideoFormat::Rgba8,
            f.data@ == rgba_raster(f.width as int, f.height as int, stripe_pixel()),
    {
        let (w, h) = match self.parse_resolution() {
            Ok(d) => d,
            Err(_) => (1920, 1080),
        };
        let mut data = zeroed_bytes((w * h * 4) as usize);
        let ghost target = rgba_raster(w as int, h as int, stripe_pixel());
        let mut y: u32 = 0;
        while y < h
            invariant
                w * h * 4 <= u32::MAX,
                y <= h,
                target == rgba_raster(w as int, h as int, stripe_pixel()),
                data@.len() == w * h * 4,
                forall|k: int| 0 <= k < y * w * 4 ==> data@[k] == target[k],
            decreases h - y,
        {
            let mut x: u32 = 0;
            while x < w
                invariant
                    w * h * 4 <= u32::MAX,
                    y < h,
                    x <= w,
                    target == rgba_raster(w as int, h as int, stripe_pixel()),
                    data@.len() == w * h * 4,
                    forall|k: int| 0 <= k < (y * w + x) * 4 ==> data@[k] == target[k],
                decreases w - x,
            {
                proof {
                    lemma_pixel_index(x as int, y as int, w as int, h as int);
                    assert((y * w + x) * 4 + 4 <= w * h * 4) by (nonlinear_arith)
                        requires
                            (y * w + x) + 1 <= w * h,
                    ;
                    assert(x + y <= w * h * 4) by (nonlinear_arith)
                        requires
                            0 <= x < w,
                            0 <= y < h,
                    ;
                }
                let idx = ((y * w + x) * 4) as usize;
                if (x + y) % 32 < 16 {
                    data.set(idx, 255);
                } else {
                    data.set(idx, 128);
                }
                data.set(idx + 1, 0);
                data.set(idx + 2, 0);
                data.set(idx + 3, 255);
                proof {
                    assert forall|k: int| 0 <= k < (y * w + x + 1) * 4 implies data@[k] == target[k] by {
                        if k >= (y * w + x) * 4 {
                            let c = k - (y * w + x) * 4;
                            lemma_rgba_byte(k, (y * w + x) as int, c);
                        }
                    }
                }
                x = x + 1;
            }
            proof {
                assert((y + 1) * w * 4 == (y * w + w) * 4) by (nonlinear_arith);
            }
            y = y + 1;
        }
        proof {
            assert(h * w * 4 == w * h * 4) by (nonlinear_arith);
            assert(data@ =~= target);
        }
        VideoFrame { width: w, height: h, format: VideoFormat::Rgba8, data }
    }
}

/// The computed test patterns (colour bars are `camera::color_bars_frame`).
#[derive(Debug, Clone, Copy, PartialEq, Eq, Structural)]
pub enum TestPattern {
    /// A grey ramp rising from black on the left, `x * 255 / width`.
    Gradient,
    /// Every pixel the given red, green, blue and alpha.
    SolidColor(u8, u8, u8, u8),
    /// A grey texture `((x + y) * 123456789) % 256`.
    Noise,
}

/// Pixel (x, y) of `pattern` in a `w`-wide frame.
pub open spec fn pattern_pixel(pattern: TestPattern, w: int) -> spec_fn(int, int) -> Seq<u8> {
    |x: int, y: int|
        match pattern {
            TestPattern::Gradient => {
                let v = (x * 255 / w) as u8;
                seq![v, v, v, 255u8]
            },
            TestPattern::SolidColor(r, g, b, a) => seq![r, g, b, a],
            TestPattern::Noise => {
                let v = ((x + y) * 123456789 % 256) as u8;
                seq![v, v, v, 255u8]
            },
        }
}

/// The four bytes of pixel (x, y) of `pattern` in a `w`-wide frame.
fn pattern_rgba(pattern: TestPattern, w: u32, x: u32, y: u32) -> (c: (u8, u8, u8, u8))
    requires
        x < w,
        x + y <= u32::MAX,
    ensures
        seq![c.0, c.1, c.2, c.3] == pattern_pixel(pattern, w as int)(x as int, y as int),
{
    match pattern {
        TestPattern::Gradient => {
            let v: u64 = (x as u64) * 255 / (w as u64);
            assert(v < 255) by (nonlinear_arith)
                requires
                    v == (x as int) * 255 / (w as int),
                    x < w,
            ;
            (v as u8, v as u8, v as u8, 255)
        },
        TestPattern::SolidColor(r, g, b, a) => (r, g, b, a),
        TestPattern::Noise => {
            let s: u32 = x + y;
            let v: u32 = ((s % 256) * 21) % 256;
            proof {
                vstd::arithmetic::div_mod::lemma_mul_mod_noop_general(s as int, 123456789, 256);
                assert(123456789int % 256 == 21);
            }
            (v as u8, v as u8, v as u8, 255)
        },
    }
}

/// A `w` x `h` RGBA frame of `pattern`.
pub fn test_pattern_frame(pattern: TestPattern, w: u32, h: u32) -> (f: VideoFrame)
    requires
        w * h * 4 <= u32::MAX,
    ensures
        f.width == w,
        f.height == h,
        f.format == VideoFormat::Rgba8,
        f.data@ == rgba_raster(w as int, h as int, pattern_pixel(pattern, w as int)),
{
    let mut data = zeroed_bytes((w * h * 4) as usize);
    let ghost target = rgba_raster(w as int, h as int, pattern_pixel(pattern, w as int));
    let mut y: u32 = 0;
    while y < h
        invariant
            w * h * 4 <= u32::MAX,
            y <= h,
            target == rgba_raster(w as int, h as int, pattern_pixel(pattern, w as int)),
            data@.len() == w * h * 4,
            forall|k: int| 0 <= k < y * w * 4 ==> data@[k] == target[k],
        decreases h - y,
    {
        let mut x: u32 = 0;
        while x < w
            invariant
                w * h * 4 <= u32::MAX,
                y < h,
                x <= w,
                target == rgba_raster(w as int, h as int, pattern_pixel(pattern, w as int)),
                data@.len() == w * h * 4,
                forall|k: int| 0 <= k < (y * w + x) * 4 ==> data@[k] == target[k],
            decreases w - x,
        {
            proof {
                lemma_pixel_index(x as int, y as int, w as int, h as int);
                assert((y * w + x) * 4 + 4 <= w * h * 4) by (nonlinear_arith)
                    requires
                        (y * w + x) + 1 <= w * h,
                ;
                assert(x + y <= w * h * 4) by (nonlinear_arith)
                    requires
                        0 <= x < w,
                        0 <= y < h,
                ;
            }
            let idx = ((y * w + x) * 4) as usize;
            let c = pattern_rgba(pattern, w, x, y);
            let ghost px = pattern_pixel(pattern, w as int)(x as int, y as int);
            data.set(idx, c.0);
            data.set(idx + 1, c.1);
            data.set(idx + 2, c.2);
            data.set(idx + 3, c.3);
            proof {
                assert forall|k: int| 0 <= k < (y * w + x + 1) * 4 implies data@[k] == target[k] by {
                    if k >= (y * w + x) * 4 {
                        let c = k - (y * w + x) * 4;
                        lemma_rgba_byte(k, (y * w + x) as int, c);
                        lemma_pixel_index(x as int, y as int, w as int, h as int);
                        assert(px[c] == target[k]);
                    }
                }
            }
            x = x + 1;
        }
        proof {
            assert((y + 1) * w * 4 == (y * w + w) * 4) by (nonlinear_arith);
        }
        y = y + 1;
    }
    proof {
        assert(h * w * 4 == w * h * 4) by (nonlinear_arith);
        assert(data@ =~= target);
    }
    VideoFrame { width: w, height: h, format: VideoFormat::Rgba8, data }
}

/// The gradient test pattern: a grey ramp from black at the left edge.
pub fn gradient_frame(w: u32, h: u32) -> (f: VideoFrame)
    requires
        w * h * 4 <= u32::MAX,
    ensures
        f.width == w && f.height == h && f.format == VideoFormat::Rgba8,
        f.data@ == rgba_raster(w as int, h as int, pattern_pixel(TestPattern::Gradient, w as int)),
{
    test_pattern_frame(TestPattern::Gradient, w, h)
}

/// The solid-colour test pattern: every pixel `(r, g, b, a)`.
pub fn solid_color_frame(w: u32, h: u32, r: u8, g: u8, b: u8, a: u8) -> (f: VideoFrame)
    requires
        w * h * 4 <= u32::MAX,
    ensures
        f.width == w && f.height == h && f.format == VideoFormat::Rgba8,
        f.data@ == rgba_raster(w as int, h as int, pattern_pixel(TestPattern::SolidColor(r, g, b, a), w as int)),
{
    test_pattern_frame(TestPattern::SolidColor(r, g, b, a), w, h)
}

/// The noise test pattern: grey levels `((x + y) * 123456789) % 256`.
pub fn noise_frame(w: u32, h: u32) -> (f: VideoFrame)
    requires
        w * h * 4 <= u32::MAX,
    ensures
        f.width == w && f.height == h && f.format == VideoFormat::Rgba8,
        f.data@ == rgba_raster(w as int, h as int, pattern_pixel(TestPattern::Noise, w as int)),
{
    test_pattern_frame(TestPattern::Noise, w, h)
}

} // verus!
