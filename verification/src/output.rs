use vstd::prelude::*;
use crate::ident::NodeId;
use crate::input::{InputError, is_resolution_result, parse_resolution_text};
use crate::params::{NodeConfig, NodeProperties, ParamValue, ParameterDefinition, ParameterType};
use crate::types::{ConnectionType, NodeType, OutputType};

verus! {

/// Parameters of the virtual webcam output node, in table order.
pub open spec fn is_virtual_webcam_parameters(p: Seq<(String, ParameterDefinition)>) -> bool {
    &&& p.len() == 3
    &&& p[0].0@ == "device_name"@
    &&& p[0].1.name@ == "Device Name"@
    &&& p[0].1.parameter_type is String
    &&& p[0].1.default_value.spec_as_str() == Some("Constellation Studio"@)
    &&& p[0].1.min_value is None
    &&& p[0].1.max_value is None
    &&& p[0].1.description@ == "Virtual camera device name"@
    &&& p[1].0@ == "resolution"@
    &&& p[1].1.name@ == "Resolution"@
    &&& (p[1].1.parameter_type matches ParameterType::Enum(opts) && opts@.len() == 3 && opts@[0]@ == "1920x1080"@
        && opts@[1]@ == "1280x720"@ && opts@[2]@ == "640x480"@)
    &&& p[1].1.default_value.spec_as_str() == Some("1920x1080"@)
    &&& p[1].1.min_value is None
    &&& p[1].1.max_value is None
    &&& p[1].1.description@ == "Output resolution"@
    &&& p[2].0@ == "fps"@
    &&& p[2].1.name@ == "Frame Rate"@
    &&& p[2].1.parameter_type is Integer
    &&& p[2].1.default_value == ParamValue::Integer(30)
    &&& p[2].1.min_value == Some(ParamValue::Integer(1))
    &&& p[2].1.max_value == Some(ParamValue::Integer(60))
    &&& p[2].1.description@ == "Output frame rate"@
}

/// Parameters of the preview output node, in table order.
pub open spec fn is_preview_parameters(p: Seq<(String, ParameterDefinition)>) -> bool {
    &&& p.len() == 2
    &&& p[0].0@ == "window_title"@
    &&& p[0].1.name@ == "Window Title"@
    &&& p[0].1.parameter_type is String
    &&& p[0].1.default_value.spec_as_str() == Some("Preview"@)
    &&& p[0].1.min_value is None
    &&& p[0].1.max_value is None
    &&& p[0].1.description@ == "Preview window title"@
    &&& p[1].0@ == "show_stats"@
    &&& p[1].1.name@ == "Show Stats"@
    &&& p[1].1.parameter_type is Boolean
    &&& p[1].1.default_value == ParamValue::Boolean(true)
    &&& p[1].1.min_value is None
    &&& p[1].1.max_value is None
    &&& p[1].1.description@ == "Show performance statistics"@
}

/// A text parameter of `config`, or `default` where it is unset or no text.
pub open spec fn text_or(config: NodeConfig, key: Seq<char>, default: Seq<char>) -> Seq<char> {
    match config.spec_get(key) {
        Some(v) => match v.spec_as_str() {
            Some(s) => s,
            None => default,
        },
        None => default,
    }
}

/// What a virtual webcam is opened with.
#[derive(Debug)]
pub struct WebcamOutputSettings {
    pub device_name: String,
    pub width: u32,
    pub height: u32,
    pub fps: u32,
}

/// An output node that feeds a virtual webcam device.
#[derive(Debug)]
pub struct VirtualWebcamNode {
    id: NodeId,
    config: NodeConfig,
    properties: NodeProperties,
}

impl VirtualWebcamNode {
    /// The node's parameter values.
    pub closed spec fn spec_config(&self) -> NodeConfig {
        self.config
    }

    /// The node's properties.
    pub closed spec fn spec_properties(&self) -> NodeProperties {
        self.properties
    }

    /// The node's identifier.
    pub closed spec fn spec_id(&self) -> NodeId {
        self.id
    }

    /// A virtual webcam node with identifier `id` and the given parameter values.
    pub fn new(id: NodeId, config: NodeConfig) -> (r: Result<Self, InputError>)
        ensures
            r matches Ok(n) && {
                &&& n.spec_id() == id
                &&& n.spec_config() == config
                &&& n.spec_properties().id == id
                &&& n.spec_properties().name@ == "Virtual Webcam"@
                &&& n.spec_properties().node_type == NodeType::Output(OutputType::VirtualWebcam)
                &&& n.spec_properties().input_types@ == seq![ConnectionType::RenderData, ConnectionType::Audio]
                &&& n.spec_properties().output_types@.len() == 0
                &&& is_virtual_webcam_parameters(n.spec_properties().parameters@)
            },
    {
        let mut parameters: Vec<(String, ParameterDefinition)> = Vec::new();
        parameters.push((
            String::from_str("device_name"),
            ParameterDefinition {
                name: String::from_str("Device Name"),
                parameter_type: ParameterType::String,
                default_value: ParamValue::Text(String::from_str("Constellation Studio")),
                min_value: None,
                max_value: None,
                description: String::from_str("Virtual camera device name"),
            },
        ));
        let options = vec![String::from_str("1920x1080"), String::from_str("1280x720"), String::from_str("640x480")];
        parameters.push((
            String::from_str("resolution"),
            ParameterDefinition {
                name: String::from_str("Resolution"),
                parameter_type: ParameterType::Enum(options),
                default_value: ParamValue::Text(String::from_str("1920x1080")),
                min_value: None,
                max_value: None,
                description: String::from_str("Output resolution"),
            },
        ));
        parameters.push((
            String::from_str("fps"),
            ParameterDefinition {
                name: String::from_str("Frame Rate"),
                parameter_type: ParameterType::Integer,
                default_value: ParamValue::Integer(30),
                min_value: Some(ParamValue::Integer(1)),
                max_value: Some(ParamValue::Integer(60)),
                description: String::from_str("Output frame rate"),
            },
        ));
        let input_types = vec![ConnectionType::RenderData, ConnectionType::Audio];
        let properties = NodeProperties {
            id,
            name: String::from_str("Virtual Webcam"),
            node_type: NodeType::Output(OutputType::VirtualWebcam),
            input_types,
            output_types: Vec::new(),
            parameters,
        };
        Ok(VirtualWebcamNode { id, config, properties })
    }

    /// The node's properties.
    pub fn get_properties(&self) -> (p: &NodeProperties)
        ensures
            *p == self.spec_properties(),
    {
        &self.properties
    }

    /// A copy of the value of parameter `key`, if set.
    pub fn get_parameter(&self, key: &str) -> (r: Option<ParamValue>)
        ensures
            match r {
                Some(v) => self.spec_config().spec_get(key@) matches Some(w) && v.same(w),
                None => self.spec_config().spec_get(key@) is None,
            },
    {
        match self.config.get(key) {
            Some(v) => Some(v.duplicate()),
            None => None,
        }
    }

    /// Set parameter `key` to `value`.
    pub fn set_parameter(&mut self, key: &str, value: ParamValue) -> (r: Result<(), InputError>)
        ensures
            r is Ok,
            forall|k: Seq<char>| #[trigger] final(self).spec_config().spec_get(k) == (if k == key@ {
                Some(value)
            } else {
                old(self).spec_config().spec_get(k)
            }),
            final(self).spec_properties() == old(self).spec_properties(),
            final(self).spec_id() == old(self).spec_id(),
    {
        self.config.insert(key, value);
        Ok(())
    }

    /// Read a resolution text `WIDTHxHEIGHT`.
    pub fn parse_resolution(&self, resolution: &str) -> (r: Result<(u32, u32), InputError>)
        ensures
            is_resolution_result(r, resolution@),
    {
        parse_resolution_text(resolution)
    }

    /// The settings the webcam is opened with: the device name (default
    /// "Constellation Studio"), the resolution (default "1920x1080") and the
    /// frame rate (30 unless `fps` is an integer; its low 32 bits).
    pub fn output_settings(&self) -> (r: Result<WebcamOutputSettings, InputError>)
        ensures
            match r {
                Ok(s) => {
                    &&& s.device_name@ == text_or(self.spec_config(), "device_name"@, "Constellation Studio"@)
                    &&& is_resolution_result(Ok((s.width, s.height)), text_or(self.spec_config(), "resolution"@, "1920x1080"@))
                    &&& s.fps == (match self.spec_config().spec_get("fps"@) {
                        Some(v) => match v.spec_as_i64() {
                            Some(f) => f as u32,
                            None => 30u32,
                        },
                        None => 30u32,
                    })
                },
                Err(e) => is_resolution_result(Err(e), text_or(self.spec_config(), "resolution"@, "1920x1080"@)),
            },
    {
        let device_name: String = match self.config.get("device_name") {
            Some(v) => match v.as_str() {
                Some(s) => s.to_string(),
                None => String::from_str("Constellation Studio"),
            },
            None => String::from_str("Constellation Studio"),
        };
        let resolution: &str = match self.config.get("resolution") {
            Some(v) => match v.as_str() {
                Some(s) => s,
                None => "1920x1080",
            },
            None => "1920x1080",
        };
        let (width, height) = match parse_resolution_text(resolution) {
            Ok(d) => d,
            Err(e) => {
                return Err(e);
            },
        };
        let fps: i64 = match self.config.get("fps") {
            Some(v) => match v.as_i64() {
                Some(f) => f,
                None => 30,
            },
            None => 30,
        };
        Ok(WebcamOutputSettings { device_name, width, height, fps: fps as u32 })
    }
}

/// An output node that shows frames in a preview.
#[derive(Debug)]
pub struct PreviewNode {
    id: NodeId,
    config: NodeConfig,
    properties: NodeProperties,
}

impl PreviewNode {
    /// The node's parameter values.
    pub closed spec fn spec_config(&self) -> NodeConfig {
        self.config
    }

    /// The node's properties.
    pub closed spec fn spec_properties(&self) -> NodeProperties {
        self.properties
    }

    /// A preview node with identifier `id` and the given parameter values.
    pub fn new(id: NodeId, config: NodeConfig) -> (r: Result<Self, InputError>)
        ensures
            r matches Ok(n) && {
                &&& n.spec_config() == config
                &&& n.spec_properties().id == id
                &&& n.spec_properties().name@ == "Preview"@
                &&& n.spec_properties().node_type == NodeType::Output(OutputType::Preview)
                &&& n.spec_properties().input_types@ == seq![ConnectionType::RenderData, ConnectionType::Audio]
                &&& n.spec_properties().output_types@.len() == 0
                &&& is_preview_parameters(n.spec_properties().parameters@)
            },
    {
        let mut parameters: Vec<(String, ParameterDefinition)> = Vec::new();
        parameters.push((
            String::from_str("window_title"),
            ParameterDefinition {
                name: String::from_str("Window Title"),
                parameter_type: ParameterType::String,
                default_value: ParamValue::Text(String::from_str("Preview")),
                min_value: None,
                max_value: None,
                description: String::from_str("Preview window title"),
            },
        ));
        parameters.push((
            String::from_str("show_stats"),
            ParameterDefinition {
                name: String::from_str("Show Stats"),
                parameter_type: ParameterType::Boolean,
                default_value: ParamValue::Boolean(true),
                min_value: None,
                max_value: None,
                description: String::from_str("Show performance statistics"),
            },
        ));
        let input_types = vec![ConnectionType::RenderData, ConnectionType::Audio];
        let properties = NodeProperties {
            id,
            name: String::from_str("Preview"),
            node_type: NodeType::Output(OutputType::Preview),
            input_types,
            output_types: Vec::new(),
            parameters,
        };
        Ok(PreviewNode { id, config, properties })
    }

    /// The node's properties.
    pub fn get_properties(&self) -> (p: &NodeProperties)
        ensures
            *p == self.spec_properties(),
    {
        &self.properties
    }

    /// A copy of the value of parameter `key`, if set.
    pub fn get_parameter(&self, key: &str) -> (r: Option<ParamValue>)
        ensures
            match r {
                Some(v) => self.spec_config().spec_get(key@) matches Some(w) && v.same(w),
                None => self.spec_config().spec_get(key@) is None,
            },
    {
        match self.config.get(key) {
            Some(v) => Some(v.duplicate()),
            None => None,
        }
    }

    /// Set parameter `key` to `value`.
    pub fn set_parameter(&mut self, key: &str, value: ParamValue) -> (r: Result<(), InputError>)
        ensures
            r is Ok,
            forall|k: Seq<char>| #[trigger] final(self).spec_config().spec_get(k) == (if k == key@ {
                Some(value)
            } else {
                old(self).spec_config().spec_get(k)
            }),
            final(self).spec_properties() == old(self).spec_properties(),
    {
        self.config.insert(key, value);
        Ok(())
    }
}

} // verus!
