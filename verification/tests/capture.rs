use constellation::capture::windows::display_count_from_metric;
use constellation::capture::windows::display_dimensions;
use constellation::capture::windows::rect_bounds;
use constellation::capture::windows::is_listed_window;
use constellation::capture::windows::{WindowsScreenCapture, WindowsWindowCapture};
use constellation::frame::VideoFormat;
use constellation::capture::linux::convert_ximage_to_frame_data;
use constellation::capture::macos::{self as cg_macos, MacOSWindowCapture};
use constellation::capture::screen_capture::ScreenCaptureNode;
use constellation::capture::screen_capture_kit::{
    self as sck, ScreenCaptureKitCapture, ScreenCaptureKitWindowCapture,
};
use constellation::capture::window_capture::{WindowCaptureNode, WindowTarget};
use constellation::capture::{
    find_window_by_title, get_display_count, CaptureError, WindowCaptureBackend, WindowInfo,
};
use constellation::params::{NodeConfig, ParamValue};
use constellation::types::ConnectionType;

fn empty_config() -> NodeConfig {
    NodeConfig { parameters: Vec::new() }
}

#[test]
fn test_screen_capture_node_creation() {
    let node_id = uuid::Uuid::new_v4().as_u128();
    let result = ScreenCaptureNode::new(node_id, empty_config());
    assert!(result.is_ok());

    let node = result.unwrap();
    assert_eq!(node.get_properties().name, "Screen Capture");
    assert_eq!(node.get_properties().output_types, vec![ConnectionType::RenderData]);
}

#[test]
fn test_window_capture_node_creation() {
    let node_id = uuid::Uuid::new_v4().as_u128();
    let result = WindowCaptureNode::new(node_id, empty_config());
    assert!(result.is_ok());

    let node = result.unwrap();
    assert_eq!(node.get_properties().name, "Window Capture");
    assert_eq!(node.get_properties().output_types, vec![ConnectionType::RenderData]);
}

#[test]
fn test_capture_parameter_defaults() {
    let node = ScreenCaptureNode::new(uuid::Uuid::new_v4().as_u128(), empty_config()).unwrap();

    assert!(matches!(node.get_parameter("display_id"), Some(ParamValue::Integer(0))));
    assert!(matches!(node.get_parameter("capture_cursor"), Some(ParamValue::Boolean(true))));
    assert!(matches!(node.get_parameter("fps"), Some(ParamValue::Integer(30))));
}

#[test]
fn test_capture_parameter_modification() {
    let mut node = ScreenCaptureNode::new(uuid::Uuid::new_v4().as_u128(), empty_config()).unwrap();

    assert!(node.set_parameter("display_id", ParamValue::Integer(1)).is_ok());
    assert!(node.set_parameter("capture_cursor", ParamValue::Boolean(false)).is_ok());
    assert!(node.set_parameter("fps", ParamValue::Integer(60)).is_ok());

    assert!(matches!(node.get_parameter("display_id"), Some(ParamValue::Integer(1))));
    assert!(matches!(node.get_parameter("capture_cursor"), Some(ParamValue::Boolean(false))));
    assert!(matches!(node.get_parameter("fps"), Some(ParamValue::Integer(60))));
    assert_eq!(node.capture_settings(), (1, false));
}

#[test]
fn test_capture_defaults_keep_given_values() {
    let mut config = empty_config();
    config.insert("fps", ParamValue::Integer(24));
    config.insert("custom", ParamValue::Text("x".to_string()));
    let node = ScreenCaptureNode::new(uuid::Uuid::new_v4().as_u128(), config).unwrap();
    assert!(matches!(node.get_parameter("fps"), Some(ParamValue::Integer(24))));
    assert!(matches!(node.get_parameter("region_height"), Some(ParamValue::Integer(0))));
    match node.get_parameter("custom") {
        Some(ParamValue::Text(t)) => assert_eq!(t, "x"),
        other => panic!("unexpected {:?}", other),
    }
    assert_eq!(node.get_properties().parameters.len(), 7);
    assert_eq!(node.capture_settings(), (0, true));
}

#[test]
fn test_window_capture_target() {
    let node = WindowCaptureNode::new(uuid::Uuid::new_v4().as_u128(), empty_config()).unwrap();
    assert!(matches!(node.capture_target(), Err(CaptureError::NoWindowSelected)));

    let mut node = node;
    node.set_parameter("window_id", ParamValue::Integer(42)).unwrap();
    assert!(matches!(node.capture_target(), Ok(WindowTarget::ById(42))));

    node.set_parameter("window_title", ParamValue::Text("Editor".to_string())).unwrap();
    match node.capture_target() {
        Ok(WindowTarget::ByTitle(t)) => assert_eq!(t, "Editor"),
        other => panic!("unexpected {:?}", other),
    }
}

#[test]
fn test_screen_capture_backend_display_detection() {
    let display_count = get_display_count();
    assert!(display_count.is_ok());
    assert!(display_count.unwrap() > 0);
}

#[test]
fn test_find_window_by_title() {
    let windows = vec![
        WindowInfo { id: 3, title: "A".to_string(), process_name: "p".to_string(), bounds: (0, 0, 1, 1) },
        WindowInfo { id: 5, title: "B".to_string(), process_name: "p".to_string(), bounds: (0, 0, 1, 1) },
        WindowInfo { id: 7, title: "B".to_string(), process_name: "q".to_string(), bounds: (0, 0, 1, 1) },
    ];
    assert_eq!(find_window_by_title(&windows, "B").unwrap(), 5);
    match find_window_by_title(&windows, "C") {
        Err(CaptureError::WindowNotFound { title }) => assert_eq!(title, "C"),
        other => panic!("unexpected {:?}", other),
    }
}

#[test]
fn test_ximage_conversion() {
    // 2 x 2 image, 12 bytes per line (4 bytes of padding per row).
    let data: Vec<u8> = (0u8..24).collect();
    let out = convert_ximage_to_frame_data(2, 2, 32, 12, &data).unwrap();
    assert_eq!(out, vec![0, 1, 2, 3, 4, 5, 6, 7, 12, 13, 14, 15, 16, 17, 18, 19]);

    // Pixels past the end of the data are skipped.
    let short: Vec<u8> = (0u8..14).collect();
    let out = convert_ximage_to_frame_data(2, 2, 32, 12, &short).unwrap();
    assert_eq!(out, vec![0, 1, 2, 3, 4, 5, 6, 7]);

    assert!(matches!(
        convert_ximage_to_frame_data(2, 2, 24, 12, &data),
        Err(CaptureError::UnsupportedPixelFormat { bits_per_pixel: 24 })
    ));
}

#[test]
fn test_macos_window_helpers() {
    let list = cg_macos::get_window_list().unwrap();
    assert_eq!(list.len(), 1);
    assert_eq!(list[0].title, "Test Window");
    let cap = <MacOSWindowCapture as WindowCaptureBackend>::new(0x1_0000_0005).unwrap();
    assert_eq!(cap.window_id, 5);
    assert_eq!((cap.width, cap.height), (800, 600));
    assert_eq!(cap.get_window_bounds().unwrap(), (0, 0, 800, 600));
}

#[test]
fn test_screen_capture_kit_helpers() {
    let list = sck::get_window_list().unwrap();
    assert_eq!(list.len(), 4);
    assert_eq!(list[3].title, "Constellation Studio");
    assert_eq!(list[2].bounds, (200, 200, 1280, 800));
    let cap = <ScreenCaptureKitWindowCapture as WindowCaptureBackend>::new_by_title("x").unwrap();
    assert_eq!(cap.window_id, 1);
    assert_eq!(sck::get_window_dimensions(3).unwrap(), (800, 600));
}

#[test]
fn test_screen_capture_pattern() {
    let cap = ScreenCaptureKitCapture { display_id: 0, capture_cursor: true, width: 40, height: 2 };
    let data = cap.create_screen_capture_pattern();
    assert_eq!(data.len(), 40 * 2 * 4);
    assert_eq!(&data[0..4], &[240, 240, 240, 255]);
    assert_eq!(&data[32 * 4..32 * 4 + 4], &[200, 200, 200, 255]);
}

#[test]
fn windows_display_count_falls_back_to_one() {
    assert_eq!(display_count_from_metric(3), 3);
    assert_eq!(display_count_from_metric(0), 1);
    assert_eq!(display_count_from_metric(-2), 1);
}

#[test]
fn windows_display_dimensions_for_primary_and_secondary() {
    assert_eq!(display_dimensions(0, 2560, 1440), (2560, 1440));
    assert_eq!(display_dimensions(2, 2560, 1440), (1920, 1080));
}

#[test]
fn windows_rect_bounds_from_edges() {
    assert_eq!(rect_bounds(10, 20, 110, 220), (10, 20, 100, 200));
    assert_eq!(rect_bounds(-8, 0, 92, 50), (u32::MAX - 7, 0, 100, 50));
}

#[test]
fn windows_window_listing_filter() {
    assert!(is_listed_window(true, "Editor"));
    assert!(!is_listed_window(false, "Editor"));
    assert!(!is_listed_window(true, ""));
    assert!(!is_listed_window(true, "Program Manager"));
}

#[test]
fn windows_captures_wrap_pixels_as_bgra() {
    let screen = WindowsScreenCapture::new(1, true, (4, 2));
    let f = screen.frame_from_pixels(vec![7u8; 32]);
    assert_eq!((f.width, f.height, f.format), (4, 2, VideoFormat::Bgra8));
    assert_eq!(f.data, vec![7u8; 32]);
    let window = WindowsWindowCapture::new(0x1234, (3, 3));
    let g = window.frame_from_pixels(vec![1u8; 36]);
    assert_eq!((g.width, g.height, g.format), (3, 3, VideoFormat::Bgra8));
    assert_eq!(window.window_handle, 0x1234);
}

#[test]
fn test_screen_capture_node_integration() {
    let node_id = uuid::Uuid::new_v4().as_u128();
    let mut node = ScreenCaptureNode::new(node_id, NodeConfig::new()).expect("Failed to create screen capture node");
    let properties = node.get_properties();
    assert_eq!(properties.name, "Screen Capture");
    assert_eq!(properties.id, node_id);
    assert!(node.set_parameter("display_id", ParamValue::Integer(0)).is_ok());
    assert!(node.set_parameter("capture_cursor", ParamValue::Boolean(true)).is_ok());
    assert_eq!(node.get_parameter("display_id").unwrap().as_i64(), Some(0));
    assert_eq!(node.get_parameter("capture_cursor").unwrap().as_bool(), Some(true));
}

#[test]
fn test_window_capture_node_integration() {
    let node_id = uuid::Uuid::new_v4().as_u128();
    let mut node = WindowCaptureNode::new(node_id, NodeConfig::new()).expect("Failed to create window capture node");
    let properties = node.get_properties();
    assert_eq!(properties.name, "Window Capture");
    assert_eq!(properties.id, node_id);
    assert!(node.set_parameter("window_title", ParamValue::Text("Test".to_string())).is_ok());
    assert!(node.set_parameter("follow_window", ParamValue::Boolean(true)).is_ok());
    assert_eq!(node.get_parameter("window_title").unwrap().as_str(), Some("Test"));
    assert_eq!(node.get_parameter("follow_window").unwrap().as_bool(), Some(true));
}

#[test]
fn test_capture_parameter_validation() {
    let mut node = ScreenCaptureNode::new(uuid::Uuid::new_v4().as_u128(), NodeConfig::new()).expect("Failed to create screen capture node");
    assert!(node.set_parameter("fps", ParamValue::Integer(30)).is_ok());
    assert!(node.set_parameter("fps", ParamValue::Integer(60)).is_ok());
    assert!(node.set_parameter("display_id", ParamValue::Integer(0)).is_ok());
    assert!(node.set_parameter("display_id", ParamValue::Integer(1)).is_ok());
    assert!(node.set_parameter("capture_cursor", ParamValue::Boolean(true)).is_ok());
    assert!(node.set_parameter("capture_cursor", ParamValue::Boolean(false)).is_ok());
    assert!(node.set_parameter("region_x", ParamValue::Integer(0)).is_ok());
    assert!(node.set_parameter("region_y", ParamValue::Integer(0)).is_ok());
    assert!(node.set_parameter("region_width", ParamValue::Integer(1920)).is_ok());
    assert!(node.set_parameter("region_height", ParamValue::Integer(1080)).is_ok());
}

#[test]
fn test_window_capture_parameter_validation() {
    let mut node = WindowCaptureNode::new(uuid::Uuid::new_v4().as_u128(), NodeConfig::new()).expect("Failed to create window capture node");
    assert!(node.set_parameter("window_title", ParamValue::Text("Calculator".to_string())).is_ok());
    assert!(node.set_parameter("window_id", ParamValue::Integer(12345)).is_ok());
    assert!(node.set_parameter("follow_window", ParamValue::Boolean(true)).is_ok());
    assert!(node.set_parameter("capture_method", ParamValue::Text("Auto".to_string())).is_ok());
    assert!(node.set_parameter("capture_method", ParamValue::Text("Graphics Capture".to_string())).is_ok());
    assert!(node.set_parameter("capture_method", ParamValue::Text("BitBlt".to_string())).is_ok());
}
