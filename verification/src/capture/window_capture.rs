use vstd::prelude::*;
use super::CaptureError;
use crate::hardware::texts;
use crate::ident::NodeId;
use crate::params::{
    NodeConfig, NodeProperties, ParamValue, ParameterDefinition, ParameterType, apply_parameter_defaults,
    defaults_applied, keys_unique,
};
use crate::types::{ConnectionType, InputType, NodeType};

verus! {

/// Which window a capture opens.
#[derive(Debug)]
pub enum WindowTarget {
    ByTitle(String),
    ById(u64),
}

/// The parameters of the window capture node, in table order.
pub open spec fn is_window_capture_parameters(p: Seq<(String, ParameterDefinition)>) -> bool {
    &&& p.len() == 4
    &&& p[0].0@ == "window_title"@
    &&& p[0].1.name@ == "Window Title"@
    &&& p[0].1.parameter_type is String
    &&& p[0].1.default_value.spec_as_str() == Some(""@)
    &&& p[0].1.min_value is None
    &&& p[0].1.max_value is None
    &&& p[0].1.description@ == "Title of window to capture"@
    &&& p[1].0@ == "window_id"@
    &&& p[1].1.name@ == "Window ID"@
    &&& p[1].1.parameter_type is Integer
    &&& p[1].1.default_value == ParamValue::Integer(0i64)
    &&& (p[1].1.min_value matches Some(m) && m == ParamValue::Integer(0i64))
    &&& p[1].1.max_value is None
    &&& p[1].1.description@ == "Window ID to capture"@
    &&& p[2].0@ == "follow_window"@
    &&& p[2].1.name@ == "Follow Window"@
    &&& p[2].1.parameter_type is Boolean
    &&& p[2].1.default_value == ParamValue::Boolean(true)
    &&& p[2].1.min_value is None
    &&& p[2].1.max_value is None
    &&& p[2].1.description@ == "Follow window size changes"@
    &&& p[3].0@ == "capture_method"@
    &&& p[3].1.name@ == "Capture Method"@
    &&& (p[3].1.parameter_type matches ParameterType::Enum(opts) && texts(opts@) =~= seq!["Auto"@, "Graphics Capture"@, "BitBlt"@])
    &&& p[3].1.default_value.spec_as_str() == Some("Auto"@)
    &&& p[3].1.min_value is None
    &&& p[3].1.max_value is None
    &&& p[3].1.description@ == "Window capture method"@
}

/// The parameters of the window capture node.
fn window_capture_parameters() -> (p: Vec<(String, ParameterDefinition)>)
    ensures
        is_window_capture_parameters(p@),
{
    let mut p: Vec<(String, ParameterDefinition)> = Vec::new();
    p.push((
        String::from_str("window_title"),
        ParameterDefinition {
            name: String::from_str("Window Title"),
            parameter_type: ParameterType::String,
            default_value: ParamValue::Text(String::from_str("")),
            min_value: None,
            max_value: None,
            description: String::from_str("Title of window to capture"),
        },
    ));
    p.push((
        String::from_str("window_id"),
        ParameterDefinition {
            name: String::from_str("Window ID"),
            parameter_type: ParameterType::Integer,
            default_value: ParamValue::Integer(0),
            min_value: Some(ParamValue::Integer(0)),
            max_value: None,
            description: String::from_str("Window ID to capture"),
        },
    ));
    p.push((
        String::from_str("follow_window"),
        ParameterDefinition {
            name: String::from_str("Follow Window"),
            parameter_type: ParameterType::Boolean,
            default_value: ParamValue::Boolean(true),
            min_value: None,
            max_value: None,
            description: String::from_str("Follow window size changes"),
        },
    ));
    p.push((
        String::from_str("capture_method"),
        ParameterDefinition {
            name: String::from_str("Capture Method"),
            parameter_type: ParameterType::Enum(vec![String::from_str("Auto"), String::from_str("Graphics Capture"), String::from_str("BitBlt")]),
            default_value: ParamValue::Text(String::from_str("Auto")),
            min_value: None,
            max_value: None,
            description: String::from_str("Window capture method"),
        },
    ));
    p
}
/// The keys of the table are distinct.
proof fn lemma_window_capture_keys_unique(p: Seq<(String, ParameterDefinition)>)
    requires
        is_window_capture_parameters(p),
    ensures
        keys_unique(p),
{
    reveal_strlit("window_title");
    reveal_strlit("window_id");
    reveal_strlit("follow_window");
    reveal_strlit("capture_method");
    assert forall|i: int, j: int| 0 <= i < j < p.len() implies (#[trigger] p[i]).0@ != (#[trigger] p[j]).0@ by {
        if i == 0 && j == 1 {
            assert("window_title"@.len() != "window_id"@.len());
        } else if i == 0 && j == 2 {
            assert("window_title"@.len() != "follow_window"@.len());
        } else if i == 0 && j == 3 {
            assert("window_title"@.len() != "capture_method"@.len());
        } else if i == 1 && j == 2 {
            assert("window_id"@.len() != "follow_window"@.len());
        } else if i == 1 && j == 3 {
            assert("window_id"@.len() != "capture_method"@.len());
        } else if i == 2 && j == 3 {
            assert("follow_window"@.len() != "capture_method"@.len());
        }
    }
}

/// A window capture node: its properties and its parameter values.
#[derive(Debug)]
pub struct WindowCaptureNode {
    id: NodeId,
    config: NodeConfig,
    properties: NodeProperties,
}

impl WindowCaptureNode {
    /// The node's identifier.
    pub closed spec fn spec_id(&self) -> NodeId {
        self.id
    }

    /// The node's parameter values.
    pub closed spec fn spec_config(&self) -> NodeConfig {
        self.config
    }

    /// The node's properties.
    pub closed spec fn spec_properties(&self) -> NodeProperties {
        self.properties
    }

    /// A window capture node with identifier `id`; every parameter that `config`
    /// does not set takes its default.
    pub fn new(id: NodeId, config: NodeConfig) -> (r: Result<Self, CaptureError>)
        ensures
            r matches Ok(n) && {
                &&& n.spec_id() == id
                &&& n.spec_properties().id == id
                &&& n.spec_properties().name@ == "Window Capture"@
                &&& n.spec_properties().node_type == NodeType::Input(InputType::WindowCapture)
                &&& n.spec_properties().input_types@.len() == 0
                &&& n.spec_properties().output_types@ == seq![ConnectionType::RenderData]
                &&& is_window_capture_parameters(n.spec_properties().parameters@)
                &&& defaults_applied(config, n.spec_config(), n.spec_properties().parameters@)
            },
    {
        let parameters = window_capture_parameters();
        proof {
            lemma_window_capture_keys_unique(parameters@);
        }
        let mut initialized_config = config;
        apply_parameter_defaults(&mut initialized_config, &parameters);
        let mut output_types: Vec<ConnectionType> = Vec::new();
        output_types.push(ConnectionType::RenderData);
        proof {
            assert(output_types@ =~= seq![ConnectionType::RenderData]);
        }
        let properties = NodeProperties {
            id,
            name: String::from_str("Window Capture"),
            node_type: NodeType::Input(InputType::WindowCapture),
            input_types: Vec::new(),
            output_types,
            parameters,
        };
        Ok(WindowCaptureNode { id, config: initialized_config, properties })
    }

    /// The node's properties.
    pub fn get_properties(&self) -> (p: &NodeProperties)
        ensures
            *p == self.spec_properties(),
    {
        &self.properties
    }

    /// A copy of the value of parameter `key`, if set.
    pub fn get_parameter(&self, key: &str) -> (r: Option<ParamValue>)
        ensures
            match r {
                Some(v) => self.spec_config().spec_get(key@) matches Some(w) && v.same(w),
                None => self.spec_config().spec_get(key@) is None,
            },
    {
        match self.config.get(key) {
            Some(v) => Some(v.duplicate()),
            None => None,
        }
    }

    /// Set parameter `key` to `value`.
    pub fn set_parameter(&mut self, key: &str, value: ParamValue) -> (r: Result<(), CaptureError>)
        ensures
            r is Ok,
            forall|k: Seq<char>| #[trigger] final(self).spec_config().spec_get(k) == (if k == key@ {
                Some(value)
            } else {
                old(self).spec_config().spec_get(k)
            }),
            final(self).spec_properties() == old(self).spec_properties(),
            final(self).spec_id() == old(self).spec_id(),
    {
        self.config.insert(key, value);
        Ok(())
    }

    /// The window to capture: by title when `window_title` is a non-empty
    /// text, else by identifier when `window_id` (as 64 unsigned bits) is
    /// positive; neither is an error.
    pub fn capture_target(&self) -> (r: Result<WindowTarget, CaptureError>)
        ensures
            ({
                let title = match self.spec_config().spec_get("window_title"@) {
                    Some(v) => match v.spec_as_str() {
                        Some(s) => s,
                        None => Seq::<char>::empty(),
                    },
                    None => Seq::<char>::empty(),
                };
                let id = match self.spec_config().spec_get("window_id"@) {
                    Some(v) => match v.spec_as_i64() {
                        Some(i) => i as u64,
                        None => 0u64,
                    },
                    None => 0u64,
                };
                if title.len() > 0 {
                    r matches Ok(WindowTarget::ByTitle(t)) && t@ == title
                } else if id > 0 {
                    r == Ok::<WindowTarget, CaptureError>(WindowTarget::ById(id))
                } else {
                    r matches Err(CaptureError::NoWindowSelected)
                }
            }),
    {
        let title: String = match self.config.get("window_title") {
            Some(ParamValue::Text(s)) => s.clone(),
            _ => String::new(),
        };
        let window_id: i64 = match self.config.get("window_id") {
            Some(v) => match v.as_i64() {
                Some(i) => i,
                None => 0,
            },
            None => 0,
        };
        let id = window_id as u64;
        if title.as_str().unicode_len() > 0 {
            Ok(WindowTarget::ByTitle(title))
        } else if id > 0 {
            Ok(WindowTarget::ById(id))
        } else {
            Err(CaptureError::NoWindowSelected)
        }
    }
}

} // verus!
