use vstd::prelude::*;
use super::CaptureError;
use crate::hardware::texts;
use crate::ident::NodeId;
use crate::params::{
    NodeConfig, NodeProperties, ParamValue, ParameterDefinition, ParameterType, apply_parameter_defaults,
    defaults_applied, keys_unique,
};
use crate::types::{ConnectionType, InputType, NodeType};

verus! {

/// The parameters of the screen capture node, in table order.
pub open spec fn is_screen_capture_parameters(p: Seq<(String, ParameterDefinition)>) -> bool {
    &&& p.len() == 7
    &&& p[0].0@ == "display_id"@
    &&& p[0].1.name@ == "Display ID"@
    &&& p[0].1.parameter_type is Integer
    &&& p[0].1.default_value == ParamValue::Integer(0i64)
    &&& (p[0].1.min_value matches Some(m) && m == ParamValue::Integer(0i64))
    &&& (p[0].1.max_value matches Some(m) && m == ParamValue::Integer(10i64))
    &&& p[0].1.description@ == "Display to capture (0 = primary)"@
    &&& p[1].0@ == "capture_cursor"@
    &&& p[1].1.name@ == "Capture Cursor"@
    &&& p[1].1.parameter_type is Boolean
    &&& p[1].1.default_value == ParamValue::Boolean(true)
    &&& p[1].1.min_value is None
    &&& p[1].1.max_value is None
    &&& p[1].1.description@ == "Include cursor in capture"@
    &&& p[2].0@ == "fps"@
    &&& p[2].1.name@ == "Frame Rate"@
    &&& p[2].1.parameter_type is Integer
    &&& p[2].1.default_value == ParamValue::Integer(30i64)
    &&& (p[2].1.min_value matches Some(m) && m == ParamValue::Integer(1i64))
    &&& (p[2].1.max_value matches Some(m) && m == ParamValue::Integer(60i64))
    &&& p[2].1.description@ == "Capture frame rate"@
    &&& p[3].0@ == "region_x"@
    &&& p[3].1.name@ == "Region X"@
    &&& p[3].1.parameter_type is Integer
    &&& p[3].1.default_value == ParamValue::Integer(0i64)
    &&& (p[3].1.min_value matches Some(m) && m == ParamValue::Integer(0i64))
    &&& (p[3].1.max_value matches Some(m) && m == ParamValue::Integer(7680i64))
    &&& p[3].1.description@ == "Capture region X offset"@
    &&& p[4].0@ == "region_y"@
    &&& p[4].1.name@ == "Region Y"@
    &&& p[4].1.parameter_type is Integer
    &&& p[4].1.default_value == ParamValue::Integer(0i64)
    &&& (p[4].1.min_value matches Some(m) && m == ParamValue::Integer(0i64))
    &&& (p[4].1.max_value matches Some(m) && m == ParamValue::Integer(4320i64))
    &&& p[4].1.description@ == "Capture region Y offset"@
    &&& p[5].0@ == "region_width"@
    &&& p[5].1.name@ == "Region Width"@
    &&& p[5].1.parameter_type is Integer
    &&& p[5].1.default_value == ParamValue::Integer(0i64)
    &&& (p[5].1.min_value matches Some(m) && m == ParamValue::Integer(0i64))
    &&& (p[5].1.max_value matches Some(m) && m == ParamValue::Integer(7680i64))
    &&& p[5].1.description@ == "Capture region width (0 = full screen)"@
    &&& p[6].0@ == "region_height"@
    &&& p[6].1.name@ == "Region Height"@
    &&& p[6].1.parameter_type is Integer
    &&& p[6].1.default_value == ParamValue::Integer(0i64)
    &&& (p[6].1.min_value matches Some(m) && m == ParamValue::Integer(0i64))
    &&& (p[6].1.max_value matches Some(m) && m == ParamValue::Integer(4320i64))
    &&& p[6].1.description@ == "Capture region height (0 = full screen)"@
}

/// The parameters of the screen capture node.
fn screen_capture_parameters() -> (p: Vec<(String, ParameterDefinition)>)
    ensures
        is_screen_capture_parameters(p@),
{
    let mut p: Vec<(String, ParameterDefinition)> = Vec::new();
    p.push((
        String::from_str("display_id"),
        ParameterDefinition {
            name: String::from_str("Display ID"),
            parameter_type: ParameterType::Integer,
            default_value: ParamValue::Integer(0),
            min_value: Some(ParamValue::Integer(0)),
            max_value: Some(ParamValue::Integer(10)),
            description: String::from_str("Display to capture (0 = primary)"),
        },
    ));
    p.push((
        String::from_str("capture_cursor"),
        ParameterDefinition {
            name: String::from_str("Capture Cursor"),
            parameter_type: ParameterType::Boolean,
            default_value: ParamValue::Boolean(true),
            min_value: None,
            max_value: None,
            description: String::from_str("Include cursor in capture"),
        },
    ));
    p.push((
        String::from_str("fps"),
        ParameterDefinition {
            name: String::from_str("Frame Rate"),
            parameter_type: ParameterType::Integer,
            default_value: ParamValue::Integer(30),
            min_value: Some(ParamValue::Integer(1)),
            max_value: Some(ParamValue::Integer(60)),
            description: String::from_str("Capture frame rate"),
        },
    ));
    p.push((
        String::from_str("region_x"),
        ParameterDefinition {
            name: String::from_str("Region X"),
            parameter_type: ParameterType::Integer,
            default_value: ParamValue::Integer(0),
            min_value: Some(ParamValue::Integer(0)),
            max_value: Some(ParamValue::Integer(7680)),
            description: String::from_str("Capture region X offset"),
        },
    ));
    p.push((
        String::from_str("region_y"),
        ParameterDefinition {
            name: String::from_str("Region Y"),
            parameter_type: ParameterType::Integer,
            default_value: ParamValue::Integer(0),
            min_value: Some(ParamValue::Integer(0)),
            max_value: Some(ParamValue::Integer(4320)),
            description: String::from_str("Capture region Y offset"),
        },
    ));
    p.push((
        String::from_str("region_width"),
        ParameterDefinition {
            name: String::from_str("Region Width"),
            parameter_type: ParameterType::Integer,
            default_value: ParamValue::Integer(0),
            min_value: Some(ParamValue::Integer(0)),
            max_value: Some(ParamValue::Integer(7680)),
            description: String::from_str("Capture region width (0 = full screen)"),
        },
    ));
    p.push((
        String::from_str("region_height"),
        ParameterDefinition {
            name: String::from_str("Region Height"),
            parameter_type: ParameterType::Integer,
            default_value: ParamValue::Integer(0),
            min_value: Some(ParamValue::Integer(0)),
            max_value: Some(ParamValue::Integer(4320)),
            description: String::from_str("Capture region height (0 = full screen)"),
        },
    ));
    p
}

/// The keys of the table are distinct.
proof fn lemma_screen_capture_keys_unique(p: Seq<(String, ParameterDefinition)>)
    requires
        is_screen_capture_parameters(p),
    ensures
        keys_unique(p),
{
    reveal_strlit("display_id");
    reveal_strlit("capture_cursor");
    reveal_strlit("fps");
    reveal_strlit("region_x");
    reveal_strlit("region_y");
    reveal_strlit("region_width");
    reveal_strlit("region_height");
    assert forall|i: int, j: int| 0 <= i < j < p.len() implies (#[trigger] p[i]).0@ != (#[trigger] p[j]).0@ by {
        if i == 0 && j == 1 {
            assert("display_id"@.len() != "capture_cursor"@.len());
        } else if i == 0 && j == 2 {
            assert("display_id"@.len() != "fps"@.len());
        } else if i == 0 && j == 3 {
            assert("display_id"@.len() != "region_x"@.len());
        } else if i == 0 && j == 4 {
            assert("display_id"@.len() != "region_y"@.len());
        } else if i == 0 && j == 5 {
            assert("display_id"@.len() != "region_width"@.len());
        } else if i == 0 && j == 6 {
            assert("display_id"@.len() != "region_height"@.len());
        } else if i == 1 && j == 2 {
            assert("capture_cursor"@.len() != "fps"@.len());
        } else if i == 1 && j == 3 {
            assert("capture_cursor"@.len() != "region_x"@.len());
        } else if i == 1 && j == 4 {
            assert("capture_cursor"@.len() != "region_y"@.len());
        } else if i == 1 && j == 5 {
            assert("capture_cursor"@.len() != "region_width"@.len());
        } else if i == 1 && j == 6 {
            assert("capture_cursor"@.len() != "region_height"@.len());
        } else if i == 2 && j == 3 {
            assert("fps"@.len() != "region_x"@.len());
        } else if i == 2 && j == 4 {
            assert("fps"@.len() != "region_y"@.len());
        } else if i == 2 && j == 5 {
            assert("fps"@.len() != "region_width"@.len());
        } else if i == 2 && j == 6 {
            assert("fps"@.len() != "region_height"@.len());
        } else if i == 3 && j == 4 {
            assert("region_x"@[7] != "region_y"@[7]);
        } else if i == 3 && j == 5 {
            assert("region_x"@.len() != "region_width"@.len());
        } else if i == 3 && j == 6 {
            assert("region_x"@.len() != "region_height"@.len());
        } else if i == 4 && j == 5 {
            assert("region_y"@.len() != "region_width"@.len());
        } else if i == 4 && j == 6 {
            assert("region_y"@.len() != "region_height"@.len());
        } else if i == 5 && j == 6 {
            assert("region_width"@.len() != "region_height"@.len());
        }
    }
}

/// A screen capture node: its properties and its parameter values.
#[derive(Debug)]
pub struct ScreenCaptureNode {
    id: NodeId,
    config: NodeConfig,
    properties: NodeProperties,
}

impl ScreenCaptureNode {
    /// The node's identifier.
    pub closed spec fn spec_id(&self) -> NodeId {
        self.id
    }

    /// The node's parameter values.
    pub closed spec fn spec_config(&self) -> NodeConfig {
        self.config
    }

    /// The node's properties.
    pub closed spec fn spec_properties(&self) -> NodeProperties {
        self.properties
    }

    /// A screen capture node with identifier `id`; every parameter that `config`
    /// does not set takes its default.
    pub fn new(id: NodeId, config: NodeConfig) -> (r: Result<Self, CaptureError>)
        ensures
            r matches Ok(n) && {
                &&& n.spec_id() == id
                &&& n.spec_properties().id == id
                &&& n.spec_properties().name@ == "Screen Capture"@
                &&& n.spec_properties().node_type == NodeType::Input(InputType::ScreenCapture)
                &&& n.spec_properties().input_types@.len() == 0
                &&& n.spec_properties().output_types@ == seq![ConnectionType::RenderData]
                &&& is_screen_capture_parameters(n.spec_properties().parameters@)
                &&& defaults_applied(config, n.spec_config(), n.spec_properties().parameters@)
            },
    {
        let parameters = screen_capture_parameters();
        proof {
            lemma_screen_capture_keys_unique(parameters@);
        }
        let mut initialized_config = config;
        apply_parameter_defaults(&mut initialized_config, &parameters);
        let mut output_types: Vec<ConnectionType> = Vec::new();
        output_types.push(ConnectionType::RenderData);
        proof {
            assert(output_types@ =~= seq![ConnectionType::RenderData]);
        }
        let properties = NodeProperties {
            id,
            name: String::from_str("Screen Capture"),
            node_type: NodeType::Input(InputType::ScreenCapture),
            input_types: Vec::new(),
            output_types,
            parameters,
        };
        Ok(ScreenCaptureNode { id, config: initialized_config, properties })
    }

    /// The node's properties.
    pub fn get_properties(&self) -> (p: &NodeProperties)
        ensures
            *p == self.spec_properties(),
    {
        &self.properties
    }

    /// A copy of the value of parameter `key`, if set.
    pub fn get_parameter(&self, key: &str) -> (r: Option<ParamValue>)
        ensures
            match r {
                Some(v) => self.spec_config().spec_get(key@) matches Some(w) && v.same(w),
                None => self.spec_config().spec_get(key@) is None,
            },
    {
        match self.config.get(key) {
            Some(v) => Some(v.duplicate()),
            None => None,
        }
    }

    /// Set parameter `key` to `value`.
    pub fn set_parameter(&mut self, key: &str, value: ParamValue) -> (r: Result<(), CaptureError>)
        ensures
            r is Ok,
            forall|k: Seq<char>| #[trigger] final(self).spec_config().spec_get(k) == (if k == key@ {
                Some(value)
            } else {
                old(self).spec_config().spec_get(k)
            }),
            final(self).spec_properties() == old(self).spec_properties(),
            final(self).spec_id() == old(self).spec_id(),
    {
        self.config.insert(key, value);
        Ok(())
    }

    /// The display to open and whether to draw the cursor: `display_id`
    /// (its low 32 bits; 0 when unset or not an integer) and `capture_cursor`
    /// (true when unset or not a flag).
    pub fn capture_settings(&self) -> (r: (u32, bool))
        ensures
            r.0 == (match self.spec_config().spec_get("display_id"@) {
                Some(v) => match v.spec_as_i64() {
                    Some(i) => i as u32,
                    None => 0u32,
                },
                None => 0u32,
            }),
            r.1 == (match self.spec_config().spec_get("capture_cursor"@) {
                Some(v) => match v.spec_as_bool() {
                    Some(b) => b,
                    None => true,
                },
                None => true,
            }),
    {
        let display_id: i64 = match self.config.get("display_id") {
            Some(v) => match v.as_i64() {
                Some(i) => i,
                None => 0,
            },
            None => 0,
        };
        let capture_cursor = match self.config.get("capture_cursor") {
            Some(v) => match v.as_bool() {
                Some(b) => b,
                None => true,
            },
            None => true,
        };
        (display_id as u32, capture_cursor)
    }
}

} // verus!
