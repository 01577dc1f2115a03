use constellation::input::InputError;
use constellation::output::{PreviewNode, VirtualWebcamNode};
use constellation::params::{NodeConfig, ParamValue, ParameterType};
use constellation::types::{ConnectionType, NodeType, OutputType};

#[test]
fn virtual_webcam_node_properties() {
    let node = VirtualWebcamNode::new(11, NodeConfig::new()).unwrap();
    let p = node.get_properties();
    assert_eq!(p.id, 11);
    assert_eq!(p.name, "Virtual Webcam");
    assert_eq!(p.node_type, NodeType::Output(OutputType::VirtualWebcam));
    assert_eq!(p.input_types, vec![ConnectionType::RenderData, ConnectionType::Audio]);
    assert!(p.output_types.is_empty());
    let keys: Vec<&str> = p.parameters.iter().map(|(k, _)| k.as_str()).collect();
    assert_eq!(keys, vec!["device_name", "resolution", "fps"]);
    assert!(matches!(p.parameters[1].1.parameter_type, ParameterType::Enum(ref o) if o.len() == 3));
}

#[test]
fn virtual_webcam_default_output_settings() {
    let node = VirtualWebcamNode::new(1, NodeConfig::new()).unwrap();
    let s = node.output_settings().unwrap();
    assert_eq!(s.device_name, "Constellation Studio");
    assert_eq!((s.width, s.height, s.fps), (1920, 1080, 30));
}

#[test]
fn virtual_webcam_configured_output_settings() {
    let mut config = NodeConfig::new();
    config.insert("device_name", ParamValue::Text("Studio Cam".to_string()));
    config.insert("resolution", ParamValue::Text("1280x720".to_string()));
    config.insert("fps", ParamValue::Integer(60));
    let mut node = VirtualWebcamNode::new(1, config).unwrap();
    let s = node.output_settings().unwrap();
    assert_eq!(s.device_name, "Studio Cam");
    assert_eq!((s.width, s.height, s.fps), (1280, 720, 60));
    node.set_parameter("resolution", ParamValue::Text("wide".to_string())).unwrap();
    assert!(matches!(node.output_settings(), Err(InputError::InvalidResolutionFormat { .. })));
    assert_eq!(node.get_parameter("fps").unwrap().as_i64(), Some(60));
}

#[test]
fn virtual_webcam_parse_resolution() {
    let node = VirtualWebcamNode::new(1, NodeConfig::new()).unwrap();
    assert_eq!(node.parse_resolution("640x480").unwrap(), (640, 480));
    assert!(matches!(node.parse_resolution("640"), Err(InputError::InvalidResolutionFormat { .. })));
    assert!(matches!(node.parse_resolution("ax480"), Err(InputError::InvalidWidth { .. })));
    assert!(matches!(node.parse_resolution("640xb"), Err(InputError::InvalidHeight { .. })));
}

#[test]
fn preview_node_properties_and_parameters() {
    let mut node = PreviewNode::new(4, NodeConfig::new()).unwrap();
    let p = node.get_properties();
    assert_eq!(p.name, "Preview");
    assert_eq!(p.node_type, NodeType::Output(OutputType::Preview));
    assert_eq!(p.parameters[0].0, "window_title");
    assert_eq!(p.parameters[1].1.default_value.as_bool(), Some(true));
    assert!(node.get_parameter("show_stats").is_none());
    node.set_parameter("show_stats", ParamValue::Boolean(false)).unwrap();
    assert_eq!(node.get_parameter("show_stats").unwrap().as_bool(), Some(false));
}

#[test]
fn test_virtual_webcam_node_creation() {
    let node = VirtualWebcamNode::new(uuid::Uuid::new_v4().as_u128(), NodeConfig::new());
    assert!(node.is_ok());
    let node = node.unwrap();
    let properties = node.get_properties();
    assert_eq!(properties.node_type, NodeType::Output(OutputType::VirtualWebcam));
    assert!(properties.input_types.contains(&ConnectionType::RenderData));
    assert!(properties.input_types.contains(&ConnectionType::Audio));
    assert!(properties.output_types.is_empty());
}

#[test]
fn test_virtual_webcam_parameter_handling() {
    let mut config = NodeConfig::new();
    config.insert("device_name", ParamValue::Text("Test Camera".to_string()));
    config.insert("resolution", ParamValue::Text("1280x720".to_string()));
    config.insert("fps", ParamValue::Integer(60));
    let mut node = VirtualWebcamNode::new(uuid::Uuid::new_v4().as_u128(), config).unwrap();
    assert_eq!(node.get_parameter("device_name").unwrap().as_str(), Some("Test Camera"));
    assert_eq!(node.get_parameter("resolution").unwrap().as_str(), Some("1280x720"));
    assert_eq!(node.get_parameter("fps").unwrap().as_i64(), Some(60));
    node.set_parameter("fps", ParamValue::Integer(30)).unwrap();
    assert_eq!(node.get_parameter("fps").unwrap().as_i64(), Some(30));
}

#[test]
fn test_resolution_parsing() {
    let node = VirtualWebcamNode::new(uuid::Uuid::new_v4().as_u128(), NodeConfig::new()).unwrap();
    for (text, expected) in [("1920x1080", (1920, 1080)), ("1280x720", (1280, 720)), ("640x480", (640, 480))] {
        let parsed = node.parse_resolution(text);
        assert!(parsed.is_ok());
        assert_eq!(parsed.unwrap(), expected);
    }
    assert!(node.parse_resolution("invalid").is_err());
}
