use constellation::virtual_camera::{create_media_type, MediaMajorType, MediaSubType};
use constellation::frame::VideoFormat as CoreVideoFormat;
use constellation::frame::VideoFrame;
use constellation::virtual_camera::{
    convert_frame, LinuxVirtualWebcam, MacOSVirtualWebcam, PlatformInfo, TargetPlatform,
    VideoFormat, VirtualWebcam, VirtualWebcamBackend, VirtualWebcamConfig, WebcamError,
    WindowsVirtualWebcam,
};

#[test]
fn mod_test_video_format_properties() {
    assert_eq!(VideoFormat::RGB24.bytes_per_pixel(), 3);
    assert_eq!(VideoFormat::BGRA32.bytes_per_pixel(), 4);
    assert_eq!(VideoFormat::RGB24.stride(1920), 5760);
    assert_eq!(VideoFormat::BGRA32.stride(1920), 7680);
}

#[test]
fn test_default_config() {
    let config = VirtualWebcamConfig::default();
    assert_eq!(config.device_name, "Constellation Studio");
    assert_eq!(config.width, 1920);
    assert_eq!(config.height, 1080);
    assert_eq!(config.fps, 30);
    assert_eq!(config.format, VideoFormat::RGB24);
}

#[test]
fn test_platform_info() {
    let info = PlatformInfo::current();
    assert!(info.supports_resolution(1920, 1080));
    assert!(info.supports_fps(30));
    assert!(!info.platform.is_empty());
    assert!(!info.preferred_formats.is_empty());
}

#[test]
fn test_platform_fps_selection() {
    let info = PlatformInfo::current();
    assert_eq!(info.closest_fps(29), 30);
    assert_eq!(info.closest_fps(31), 30);
    if info.supports_fps(60) {
        assert_eq!(info.closest_fps(60), 60);
    }
}

#[test]
fn test_virtual_webcam_creation() {
    let webcam = VirtualWebcam::new("Test Camera".to_string());
    assert!(webcam.is_ok());
    let webcam = webcam.unwrap();
    assert_eq!(webcam.config().device_name, "Test Camera");
    assert!(!webcam.is_active());
}

#[test]
fn test_virtual_webcam_with_custom_config() {
    let config = VirtualWebcamConfig {
        device_name: "Custom Camera".to_string(),
        width: 1280,
        height: 720,
        fps: 60,
        format: VideoFormat::BGRA32,
    };
    let webcam = VirtualWebcam::new_with_config(config);
    assert!(webcam.is_ok());
    let webcam = webcam.unwrap();
    assert_eq!(webcam.config().width, 1280);
    assert_eq!(webcam.config().height, 720);
    assert_eq!(webcam.config().fps, 60);
}

#[test]
fn test_macos_virtual_webcam_creation() {
    let webcam = MacOSVirtualWebcam::new("Test Camera".to_string(), 1280, 720, 30);
    assert!(webcam.is_ok());
    let webcam = webcam.unwrap();
    assert_eq!(webcam.get_device_name(), "Test Camera");
    assert!(!webcam.is_active());
}

#[test]
fn macos_test_resolution_change() {
    let mut webcam = MacOSVirtualWebcam::new("Test Camera".to_string(), 1920, 1080, 30).unwrap();
    assert!(webcam.set_resolution(1280, 720).is_ok());
    assert_eq!(webcam.width, 1280);
    assert_eq!(webcam.height, 720);
}

#[test]
fn macos_test_fps_change() {
    let mut webcam = MacOSVirtualWebcam::new("Test Camera".to_string(), 1920, 1080, 30).unwrap();
    assert!(webcam.set_fps(60).is_ok());
    assert_eq!(webcam.fps, 60);
}

#[test]
fn test_platform_webcam_backend_creation() {
    let webcam = LinuxVirtualWebcam::new("Test Camera".to_string(), 1280, 720, 30);
    assert!(webcam.is_ok());
    let webcam = webcam.unwrap();
    assert_eq!(webcam.get_device_name(), "Test Camera");
    assert!(!webcam.is_active());
}

#[test]
fn test_platform_webcam_configuration() {
    let mut webcam = LinuxVirtualWebcam::new("Test Camera".to_string(), 1920, 1080, 30).unwrap();
    assert!(webcam.set_resolution(1280, 720).is_ok());
    assert!(webcam.set_fps(60).is_ok());
}

#[test]
fn test_virtual_webcam_config_default() {
    let config = VirtualWebcamConfig::default();
    assert_eq!(config.device_name, "Constellation Studio");
    assert_eq!(config.width, 1920);
    assert_eq!(config.height, 1080);
    assert_eq!(config.fps, 30);
    assert_eq!(config.format, VideoFormat::RGB24);
}

#[test]
fn integration_virtual_webcam_test_video_format_properties() {
    assert_eq!(VideoFormat::RGB24.bytes_per_pixel(), 3);
    assert_eq!(VideoFormat::BGRA32.bytes_per_pixel(), 4);
    assert_eq!(VideoFormat::YUV420.bytes_per_pixel(), 1);
    assert_eq!(VideoFormat::NV12.bytes_per_pixel(), 1);
    assert_eq!(VideoFormat::RGB24.stride(1920), 5760);
    assert_eq!(VideoFormat::BGRA32.stride(1920), 7680);
    assert_eq!(VideoFormat::YUV420.stride(1920), 1920);
    assert_eq!(VideoFormat::NV12.stride(1920), 1920);
}

#[test]
fn test_macos_core_media_creation() {
    let webcam = MacOSVirtualWebcam::new("Test Camera".to_string(), 1920, 1080, 30).unwrap();
    assert_eq!(webcam.get_device_name(), "Test Camera");
    assert!(!webcam.is_active());
}

#[test]
fn linux_test_resolution_change() {
    let mut webcam = LinuxVirtualWebcam::new("Test Camera".to_string(), 1920, 1080, 30).unwrap();
    assert!(webcam.set_resolution(1280, 720).is_ok());
    assert_eq!(webcam.width, 1280);
    assert_eq!(webcam.height, 720);
}

#[test]
fn linux_test_fps_change() {
    let mut webcam = LinuxVirtualWebcam::new("Test Camera".to_string(), 1920, 1080, 30).unwrap();
    assert!(webcam.set_fps(60).is_ok());
    assert_eq!(webcam.fps, 60);
}

#[test]
fn test_linux_virtual_webcam_creation() {
    let webcam = LinuxVirtualWebcam::new("Test Camera".to_string(), 1280, 720, 30);
    assert!(webcam.is_ok());
    let webcam = webcam.unwrap();
    assert_eq!(webcam.get_device_name(), "Test Camera");
    assert!(!webcam.is_active());
}

#[test]
fn test_frame_conversion() {
    let webcam = LinuxVirtualWebcam::new("Test Camera".to_string(), 640, 480, 30).unwrap();
    let frame = VideoFrame {
        width: 640,
        height: 480,
        data: vec![0u8; 640 * 480 * 3],
        format: CoreVideoFormat::Rgb8,
    };
    let converted = webcam.convert_frame_for_v4l2(&frame);
    assert!(converted.is_ok());
    let yuv_data = converted.unwrap();
    assert_eq!(yuv_data.len(), 640 * 480 * 3 / 2);
}

#[test]
fn test_linux_v4l2_frame_conversion() {
    let webcam = LinuxVirtualWebcam::new("Test Camera".to_string(), 640, 480, 30).unwrap();
    let frame = VideoFrame {
        width: 640,
        height: 480,
        data: vec![0u8; 640 * 480 * 3],
        format: CoreVideoFormat::Rgb8,
    };
    let yuv_data = webcam.convert_frame_for_v4l2(&frame).unwrap();
    assert_eq!(yuv_data.len(), 640 * 480 * 3 / 2);
}

#[test]
fn v4l2_pattern_values() {
    let webcam = LinuxVirtualWebcam::new("Cam".to_string(), 4, 4, 30).unwrap();
    let frame = VideoFrame { width: 4, height: 4, data: vec![], format: CoreVideoFormat::Rgb8 };
    let yuv = webcam.convert_frame_for_v4l2(&frame).unwrap();
    assert_eq!(yuv.len(), 24);
    // luminance ramp (x + y) % 256 in row-major order
    assert_eq!(&yuv[0..16], &[0, 1, 2, 3, 1, 2, 3, 4, 2, 3, 4, 5, 3, 4, 5, 6]);
    // two chroma planes of 4 bytes each at 128
    assert_eq!(&yuv[16..24], &[128; 8]);
}

#[test]
fn linux_frame_for_device_requires_start() {
    let mut webcam = LinuxVirtualWebcam::new("Cam".to_string(), 2, 2, 30).unwrap();
    let frame = VideoFrame { width: 2, height: 2, data: vec![], format: CoreVideoFormat::Rgb8 };
    assert_eq!(webcam.frame_for_device(&frame), Err(WebcamError::NotActive));
    webcam.mark_started("/dev/video10".to_string());
    assert!(webcam.is_active());
    assert_eq!(webcam.set_fps(15), Err(WebcamError::FpsLockedWhileActive));
    assert_eq!(webcam.frame_for_device(&frame).unwrap().len(), 6);
    webcam.mark_stopped();
    assert!(!webcam.is_active());
    assert_eq!(webcam.device_path.as_deref(), Some("/dev/video10"));
}

#[test]
fn macos_webcam_lifecycle_and_frames() {
    let mut webcam = MacOSVirtualWebcam::new("Cam".to_string(), 2, 1, 30).unwrap();
    let frame = VideoFrame {
        width: 2,
        height: 1,
        data: vec![1, 2, 3, 4, 5, 6, 7, 8, 9],
        format: CoreVideoFormat::Rgba8,
    };
    assert_eq!(webcam.send_frame(&frame), Err(WebcamError::NotActive));
    assert!(webcam.start().is_ok());
    assert!(webcam.is_active());
    let id = webcam.device_id.clone().unwrap();
    assert!(id.starts_with("constellation-"));
    assert_eq!(id.len(), "constellation-".len() + 36);
    assert_eq!(webcam.set_resolution(1, 1), Err(WebcamError::ResolutionLockedWhileActive));
    assert!(webcam.send_frame(&frame).is_ok());
    assert!(webcam.send_frame(&frame).is_ok());
    assert_eq!(webcam.frame_count, 2);
    assert!(webcam.stop().is_ok());
    assert!(!webcam.is_active());
    assert!(webcam.device_id.is_none());
    assert_eq!(webcam.frame_count, 0);
}

#[test]
fn macos_rgba_to_bgra_swaps_red_and_blue() {
    let webcam = MacOSVirtualWebcam::new("Cam".to_string(), 1, 1, 30).unwrap();
    let out = webcam.convert_rgba_to_bgra(&[10, 20, 30, 40, 50, 60, 70, 80, 90]);
    assert_eq!(out, vec![30, 20, 10, 40, 70, 60, 50, 80]);
}

#[test]
fn manager_keeps_config_in_step() {
    let mut webcam = VirtualWebcam::new("Cam".to_string()).unwrap();
    assert!(webcam.set_resolution(640, 480).is_ok());
    assert_eq!(webcam.config().width, 640);
    assert!(webcam.start().is_ok());
    assert_eq!(webcam.set_fps(60), Err(WebcamError::FpsLockedWhileActive));
    assert_eq!(webcam.config().fps, 30);
    assert!(webcam.stop().is_ok());
    assert!(webcam.set_fps(60).is_ok());
    assert_eq!(webcam.config().fps, 60);
}

#[test]
fn closest_fps_ties_and_empty() {
    let mut info = PlatformInfo::for_platform(TargetPlatform::Windows);
    assert_eq!(info.closest_fps(27), 24);
    assert_eq!(info.closest_fps(1000), 60);
    assert_eq!(info.closest_fps(20), 24);
    info.supported_fps = vec![10, 20];
    assert_eq!(info.closest_fps(15), 10);
    info.supported_fps.clear();
    assert_eq!(info.closest_fps(15), 30);
    let mac = PlatformInfo::for_platform(TargetPlatform::MacOS);
    assert_eq!(mac.platform, "macOS");
    assert!(mac.supports_fps(120));
}

#[test]
fn frame_sizes_and_conversion() {
    assert_eq!(VideoFormat::YUV420.frame_size(4, 2), 12);
    assert_eq!(VideoFormat::BGRA32.frame_size(4, 2), 32);
    let frame = VideoFrame { width: 4, height: 2, data: vec![], format: CoreVideoFormat::Rgb8 };
    assert_eq!(convert_frame(&frame, VideoFormat::RGB24).unwrap(), vec![0u8; 24]);
    assert_eq!(convert_frame(&frame, VideoFormat::NV12).unwrap().len(), 12);
}

#[test]
fn conversion_copies_and_reorders_pixels() {
    let rgb: Vec<u8> = (1..=12).collect();
    let frame = VideoFrame { width: 2, height: 2, data: rgb.clone(), format: CoreVideoFormat::Rgb8 };
    assert_eq!(convert_frame(&frame, VideoFormat::RGB24).unwrap(), rgb);
    assert_eq!(
        convert_frame(&frame, VideoFormat::BGRA32).unwrap(),
        vec![3, 2, 1, 255, 6, 5, 4, 255, 9, 8, 7, 255, 12, 11, 10, 255]
    );
    let rgba = VideoFrame { width: 1, height: 2, data: vec![10, 20, 30, 40, 50, 60, 70, 80], format: CoreVideoFormat::Rgba8 };
    assert_eq!(convert_frame(&rgba, VideoFormat::BGRA32).unwrap(), vec![30, 20, 10, 40, 70, 60, 50, 80]);
    assert_eq!(convert_frame(&rgba, VideoFormat::RGB24).unwrap(), vec![10, 20, 30, 50, 60, 70]);
}

#[test]
fn conversion_to_and_from_yuv() {
    let white = VideoFrame { width: 2, height: 2, data: vec![255u8; 12], format: CoreVideoFormat::Rgb8 };
    assert_eq!(convert_frame(&white, VideoFormat::YUV420).unwrap(), vec![235, 235, 235, 235, 128, 128]);
    let black = VideoFrame { width: 2, height: 2, data: vec![0u8; 12], format: CoreVideoFormat::Bgr8 };
    assert_eq!(convert_frame(&black, VideoFormat::NV12).unwrap(), vec![16, 16, 16, 16, 128, 128]);
    let planar = VideoFrame { width: 2, height: 2, data: vec![16, 235, 16, 235, 100, 200], format: CoreVideoFormat::Yuv420p };
    assert_eq!(convert_frame(&planar, VideoFormat::YUV420).unwrap(), vec![16, 235, 16, 235, 100, 200]);
    assert_eq!(convert_frame(&planar, VideoFormat::NV12).unwrap(), vec![16, 235, 16, 235, 100, 200]);
    let grey = VideoFrame { width: 2, height: 1, data: vec![16, 235, 128, 128], format: CoreVideoFormat::Yuv420p };
    assert_eq!(convert_frame(&grey, VideoFormat::RGB24).unwrap(), vec![0, 0, 0, 255, 255, 255]);
}

#[test]
fn test_windows_virtual_webcam_creation() {
    let webcam = WindowsVirtualWebcam::new("Test Camera".to_string(), 1280, 720, 30);
    assert!(webcam.is_ok());
    let webcam = webcam.unwrap();
    assert_eq!(webcam.get_device_name(), "Test Camera");
    assert!(!webcam.is_active());
}

#[test]
fn windows_test_resolution_change() {
    let mut webcam = WindowsVirtualWebcam::new("Test Camera".to_string(), 1920, 1080, 30).unwrap();
    assert!(webcam.set_resolution(1280, 720).is_ok());
    assert_eq!(webcam.width, 1280);
    assert_eq!(webcam.height, 720);
}

#[test]
fn windows_test_fps_change() {
    let mut webcam = WindowsVirtualWebcam::new("Test Camera".to_string(), 1920, 1080, 30).unwrap();
    assert!(webcam.set_fps(60).is_ok());
    assert_eq!(webcam.fps, 60);
}

#[test]
fn windows_webcam_graph_follows_activity() {
    let mut webcam = WindowsVirtualWebcam::new("Cam".to_string(), 640, 480, 30).unwrap();
    let frame = VideoFrame { width: 2, height: 2, format: CoreVideoFormat::Rgb8, data: vec![0; 12] };
    assert!(webcam.send_frame(&frame).is_err());
    webcam.start().unwrap();
    assert!(webcam.has_filter_graph && webcam.has_source_filter && webcam.is_active());
    assert!(webcam.send_frame(&frame).is_ok());
    assert!(webcam.set_fps(25).is_err());
    webcam.stop().unwrap();
    assert!(!webcam.has_filter_graph && !webcam.has_source_filter && !webcam.is_active());
}

#[test]
fn media_types_describe_the_layout() {
    let mt = create_media_type(1920, 1080, VideoFormat::RGB24).unwrap();
    assert_eq!(mt.major_type, MediaMajorType::Video);
    assert_eq!(mt.sub_type, MediaSubType::Rgb24);
    assert_eq!((mt.width, mt.height, mt.stride, mt.frame_size), (1920, 1080, 5760, 6220800));
    let nv = create_media_type(640, 480, VideoFormat::NV12).unwrap();
    assert_eq!(nv.sub_type, MediaSubType::Nv12);
    assert_eq!((nv.stride, nv.frame_size), (640, 460800));
    assert_eq!(create_media_type(2, 2, VideoFormat::BGRA32).unwrap().sub_type, MediaSubType::Rgb32);
    assert_eq!(create_media_type(2, 2, VideoFormat::YUV420).unwrap().sub_type, MediaSubType::I420);
}
