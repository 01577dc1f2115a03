use constellation::input::{gradient_frame, noise_frame, solid_color_frame};
use constellation::frame::VideoFormat;
use constellation::input::{parse_resolution_text, CameraInputNode, InputError};
use constellation::params::{NodeConfig, ParamValue, ParameterType};
use constellation::text::parse_u32;
use constellation::types::{ConnectionType, InputType, NodeType};

fn empty_config() -> NodeConfig {
    NodeConfig { parameters: Vec::new() }
}

#[test]
fn test_camera_input_node_creation_and_properties() {
    let node_id = uuid::Uuid::new_v4().as_u128();
    let node = CameraInputNode::new(node_id, empty_config());
    assert!(node.is_ok());

    let node = node.unwrap();
    let properties = node.get_properties();
    assert_eq!(properties.id, node_id);
    assert_eq!(properties.name, "Camera Input");
    assert!(matches!(properties.node_type, NodeType::Input(InputType::Camera)));
    assert!(properties.input_types.is_empty());
    assert_eq!(properties.output_types, vec![ConnectionType::RenderData, ConnectionType::Audio]);
    let keys: Vec<&str> = properties.parameters.iter().map(|(k, _)| k.as_str()).collect();
    assert_eq!(keys, vec!["device_id", "resolution", "fps"]);
}

#[test]
fn test_camera_input_node_parameter_defaults() {
    let node = CameraInputNode::new(uuid::Uuid::new_v4().as_u128(), empty_config()).unwrap();
    let properties = node.get_properties();

    let device_param = &properties.parameters[0].1;
    assert_eq!(device_param.name, "Device ID");
    assert!(matches!(device_param.parameter_type, ParameterType::String));
    assert!(matches!(&device_param.default_value, ParamValue::Text(t) if t == "default"));

    let resolution_param = &properties.parameters[1].1;
    assert_eq!(resolution_param.name, "Resolution");
    assert!(matches!(resolution_param.parameter_type, ParameterType::Enum(_)));

    let fps_param = &properties.parameters[2].1;
    assert!(matches!(fps_param.default_value, ParamValue::Integer(30)));
    assert!(matches!(fps_param.min_value, Some(ParamValue::Integer(1))));
    assert!(matches!(fps_param.max_value, Some(ParamValue::Integer(60))));
}

#[test]
fn test_camera_input_node_parameter_updates() {
    let mut node = CameraInputNode::new(uuid::Uuid::new_v4().as_u128(), empty_config()).unwrap();
    assert!(node.set_parameter("device_id", ParamValue::Text("1".to_string())).is_ok());
    assert!(node.set_parameter("resolution", ParamValue::Text("1280x720".to_string())).is_ok());
    assert!(node.set_parameter("fps", ParamValue::Integer(60)).is_ok());
    assert!(matches!(node.get_parameter("fps"), Some(ParamValue::Integer(60))));
    let settings = node.camera_settings().unwrap();
    assert_eq!(
        (settings.device_index, settings.width, settings.height, settings.fps),
        (1, 1280, 720, 60)
    );
}

#[test]
fn test_camera_input_node_resolution_parsing() {
    let mut config = empty_config();
    config.insert("resolution", ParamValue::Text("64x48".to_string()));
    let node = CameraInputNode::new(uuid::Uuid::new_v4().as_u128(), config).unwrap();
    let frame = node.create_fallback_frame();
    assert_eq!(frame.width, 64);
    assert_eq!(frame.height, 48);
    assert_eq!(frame.format, VideoFormat::Rgba8);
    assert_eq!(&frame.data[0..4], &[255, 0, 0, 255]);
    assert_eq!(&frame.data[16 * 4..16 * 4 + 4], &[128, 0, 0, 255]);
}

#[test]
fn test_resolution_texts() {
    assert_eq!(parse_resolution_text("1920x1080").unwrap(), (1920, 1080));
    assert_eq!(parse_resolution_text("+5x7").unwrap(), (5, 7));
    assert!(matches!(
        parse_resolution_text("1920*1080"),
        Err(InputError::InvalidResolutionFormat { .. })
    ));
    assert!(matches!(parse_resolution_text("1x2x3"), Err(InputError::InvalidResolutionFormat { .. })));
    match parse_resolution_text("ax5") {
        Err(InputError::InvalidWidth { text }) => assert_eq!(text, "a"),
        other => panic!("unexpected {:?}", other),
    }
    match parse_resolution_text("5x") {
        Err(InputError::InvalidHeight { text }) => assert_eq!(text, ""),
        other => panic!("unexpected {:?}", other),
    }
}

#[test]
fn test_parse_u32_matches_std() {
    for s in ["0", "42", "+7", "4294967295", "4294967296", "", "+", "-1", " 1", "12a", "007"] {
        assert_eq!(parse_u32(s), s.parse::<u32>().ok(), "{s}");
    }
}

#[test]
fn test_patterns_fill_every_pixel() {
    let g = gradient_frame(4, 2);
    assert_eq!((g.width, g.height, g.format), (4, 2, VideoFormat::Rgba8));
    let row: Vec<u8> = vec![0, 0, 0, 255, 63, 63, 63, 255, 127, 127, 127, 255, 191, 191, 191, 255];
    assert_eq!(&g.data[0..16], &row[..]);
    assert_eq!(&g.data[16..32], &row[..]);
    let s = solid_color_frame(3, 1, 10, 20, 30, 40);
    assert_eq!(s.data, vec![10, 20, 30, 40, 10, 20, 30, 40, 10, 20, 30, 40]);
    let n = noise_frame(2, 2);
    // ((x + y) * 123456789) % 256 for x + y = 0, 1, 1, 2: 0, 21, 21, 42
    assert_eq!(n.data, vec![0, 0, 0, 255, 21, 21, 21, 255, 21, 21, 21, 255, 42, 42, 42, 255]);
}
