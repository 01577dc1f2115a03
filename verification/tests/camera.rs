use constellation::text::parse_u32;
use constellation::camera::{
    CameraCapture, CaptureParameters, CameraError, CameraParameters, LinuxCamera, MacOSCamera, PlatformCamera, PlatformCameraImpl,
    WindowsCamera,
};

#[test]
fn test_platform_camera_creation() {
    let result = PlatformCameraImpl::new(0, 640, 480, 30);
    match result {
        Ok(_) => println!("Platform camera created successfully"),
        Err(e) => println!("Failed to create platform camera (expected in CI): {e:?}"),
    }
}

#[test]
fn test_list_platform_devices() {
    let result = PlatformCameraImpl::list_devices();
    match result {
        Ok(devices) => {
            println!("Found {} platform camera devices", devices.len());
            for device in devices {
                println!("  Device {}: {}", device.index, device.name);
            }
        }
        Err(e) => {
            println!("Failed to list platform camera devices (expected in CI): {:?}", e);
        }
    }
}

#[test]
fn test_linux_camera_creation() {
    let camera = LinuxCamera::new(0, 800, 600, 25);
    assert!(camera.is_ok());
    let camera = camera.unwrap();
    assert_eq!(camera.width, 800);
    assert_eq!(camera.height, 600);
    assert_eq!(camera.fps, 25);
    assert!(!camera.is_active());
}

#[test]
fn test_linux_camera_lifecycle() {
    let mut camera = LinuxCamera::new(0, 1024, 768, 30).unwrap();
    assert!(!camera.is_active());
    let start_result = camera.start();
    assert!(start_result.is_ok());
    assert!(camera.is_active());
    let frame_result = camera.capture_frame();
    assert!(frame_result.is_ok());
    let frame = frame_result.unwrap();
    assert_eq!(frame.width, 1024);
    assert_eq!(frame.height, 768);
    assert_eq!(frame.data.len(), 1024 * 768 * 4);
    let stop_result = camera.stop();
    assert!(stop_result.is_ok());
    assert!(!camera.is_active());
}

#[test]
fn test_linux_list_devices() {
    let devices = LinuxCamera::list_devices().unwrap();
    assert_eq!(devices.len(), 2);
    assert_eq!(devices[0].index, 0);
    assert_eq!(devices[0].name, "/dev/video0");
    assert_eq!(devices[1].index, 1);
    assert_eq!(devices[1].name, "/dev/video1");
}

#[test]
fn test_macos_camera_creation() {
    let camera = MacOSCamera::new(0, 1280, 720, 30);
    assert!(camera.is_ok());
    let camera = camera.unwrap();
    assert_eq!(camera.width, 1280);
    assert_eq!(camera.height, 720);
    assert_eq!(camera.fps, 30);
    assert!(!camera.is_active());
}

#[test]
fn test_macos_camera_lifecycle() {
    let mut camera = MacOSCamera::new(0, 640, 480, 30).unwrap();
    assert!(!camera.is_active());
    let start_result = camera.start();
    assert!(start_result.is_ok());
    assert!(camera.is_active());
    let frame_result = camera.capture_frame();
    assert!(frame_result.is_ok());
    let frame = frame_result.unwrap();
    assert_eq!(frame.width, 640);
    assert_eq!(frame.height, 480);
    assert_eq!(frame.data.len(), 640 * 480 * 4);
    let stop_result = camera.stop();
    assert!(stop_result.is_ok());
    assert!(!camera.is_active());
}

#[test]
fn test_macos_list_devices() {
    let devices = MacOSCamera::list_devices().unwrap();
    assert!(!devices.is_empty());
    let device = &devices[0];
    assert_eq!(device.index, 0);
    assert_eq!(device.name, "Built-in Camera");
}

#[test]
fn test_windows_camera_creation() {
    let camera = WindowsCamera::new(0, 1920, 1080, 30);
    assert!(camera.is_ok());
    let camera = camera.unwrap();
    assert_eq!(camera.width, 1920);
    assert_eq!(camera.height, 1080);
    assert_eq!(camera.fps, 30);
    assert!(!camera.is_active());
}

#[test]
fn test_windows_camera_lifecycle() {
    let mut camera = WindowsCamera::new(0, 1280, 720, 60).unwrap();
    assert!(!camera.is_active());
    let start_result = camera.start();
    assert!(start_result.is_ok());
    assert!(camera.is_active());
    let frame_result = camera.capture_frame();
    assert!(frame_result.is_ok());
    let frame = frame_result.unwrap();
    assert_eq!(frame.width, 1280);
    assert_eq!(frame.height, 720);
    assert_eq!(frame.data.len(), 1280 * 720 * 4);
    let stop_result = camera.stop();
    assert!(stop_result.is_ok());
    assert!(!camera.is_active());
}

#[test]
fn test_windows_list_devices() {
    let devices = WindowsCamera::list_devices().unwrap();
    assert_eq!(devices.len(), 2);
    assert_eq!(devices[0].index, 0);
    assert_eq!(devices[0].name, "Integrated Camera");
    assert_eq!(devices[1].index, 1);
    assert_eq!(devices[1].name, "USB Camera");
}

#[test]
fn stopped_camera_refuses_frames() {
    let mut camera = LinuxCamera::new(0, 16, 2, 30).unwrap();
    assert_eq!(camera.capture_frame().unwrap_err(), CameraError::NotActive);
}

#[test]
fn color_bars_pixels() {
    let mut camera = LinuxCamera::new(0, 16, 1, 30).unwrap();
    camera.start().unwrap();
    let f = camera.capture_frame().unwrap();
    // bar width 2: pixel 0 white, pixel 2 yellow, pixel 15 black
    assert_eq!(&f.data[0..4], &[255, 255, 255, 255]);
    assert_eq!(&f.data[8..12], &[255, 255, 0, 255]);
    assert_eq!(&f.data[60..64], &[0, 0, 0, 255]);
}

#[test]
fn gradient_and_checker_pixels() {
    let mut mac = MacOSCamera::new(0, 4, 2, 30).unwrap();
    mac.start().unwrap();
    let f = mac.capture_frame().unwrap();
    assert_eq!(&f.data[0..4], &[0, 0, 128, 255]);
    // pixel (3, 1): 3*255/4 = 191, 1*255/2 = 127
    assert_eq!(&f.data[28..32], &[191, 127, 128, 255]);
    let mut win = WindowsCamera::new(0, 64, 1, 30).unwrap();
    win.start().unwrap();
    let g = win.capture_frame().unwrap();
    assert_eq!(&g.data[0..4], &[255, 255, 255, 255]);
    assert_eq!(&g.data[32 * 4..32 * 4 + 4], &[128, 128, 128, 255]);
}

#[test]
fn set_parameters_keeps_low_bits() {
    let mut camera = WindowsCamera::new(0, 10, 10, 30).unwrap();
    let params = CameraParameters { width: Some(640), height: None, fps: Some((1u64 << 32) + 5) };
    assert!(camera.set_parameters(&params).is_ok());
    assert_eq!(camera.width, 640);
    assert_eq!(camera.height, 10);
    assert_eq!(camera.fps, 5);
}

#[test]
fn camera_capture_starts_stopped_with_rgba() {
    let c = CameraCapture::new(2, 1280, 720, 30).unwrap();
    assert!(!c.is_running());
    assert_eq!(c.fps(), 30);
    assert_eq!(c.format, constellation::frame::VideoFormat::Rgba8);
    assert!(c.get_capabilities().is_err());
    assert_eq!(c.frame_from_buffer(2, 2, vec![0; 16]).unwrap_err(), CameraError::NotActive);
}

#[test]
fn camera_capture_parameters_and_restart() {
    let mut c = CameraCapture::new(0, 640, 480, 30).unwrap();
    let p = CaptureParameters { width: Some(1920), height: None, fps: Some((1u64 << 32) + 60), device_index: Some(3) };
    assert!(!c.set_parameters(&p));
    assert_eq!((c.width, c.height, c.fps, c.device_index), (1920, 480, 60, 3));
    c.mark_started();
    assert!(c.set_parameters(&CaptureParameters { width: None, height: Some(1080), fps: None, device_index: None }));
    let caps = c.get_capabilities().unwrap();
    assert_eq!(caps.resolutions, vec![(1920, 1080)]);
    assert_eq!(caps.frame_rates, vec![60]);
    let f = c.frame_from_buffer(2, 1, vec![9; 8]).unwrap();
    assert_eq!((f.width, f.height, f.data.len()), (2, 1, 8));
    c.mark_stopped();
    assert!(!c.is_running());
}

#[test]
fn camera_index_text_parses_like_from_str() {
    assert_eq!(parse_u32("12"), Some(12));
    assert_eq!(parse_u32("+7"), Some(7));
    assert_eq!(parse_u32("/dev/video0"), None);
    assert_eq!(parse_u32("4294967296"), None);
}

#[test]
fn color_bars_frame_has_eight_bars_and_a_wide_last_one() {
    let f = constellation::camera::color_bars_frame(20, 2);
    assert_eq!((f.width, f.height, f.data.len()), (20, 2, 160));
    let px = |x: usize, y: usize| &f.data[(y * 20 + x) * 4..(y * 20 + x) * 4 + 4];
    assert_eq!(px(0, 0), &[255, 255, 255, 255]);
    assert_eq!(px(3, 1), &[255, 255, 0, 255]);
    assert_eq!(px(4, 0), &[0, 255, 255, 255]);
    assert_eq!(px(13, 0), &[0, 0, 255, 255]);
    assert_eq!(px(14, 0), &[0, 0, 0, 255]);
    assert_eq!(px(19, 1), &[0, 0, 0, 255]);
}

#[test]
fn test_camera_capture_creation() {
    let capture = CameraCapture::new(0, 640, 480, 30);
    assert!(capture.is_ok());
    let capture = capture.unwrap();
    assert_eq!(capture.width, 640);
    assert_eq!(capture.height, 480);
    assert_eq!(capture.fps, 30);
    assert!(!capture.is_running());
}

#[test]
fn test_camera_parameters() {
    let mut capture = CameraCapture::new(0, 640, 480, 30).unwrap();
    let params = CaptureParameters { width: Some(1920), height: Some(1080), fps: Some(60), device_index: None };
    let restart = capture.set_parameters(&params);
    assert!(!restart);
    assert_eq!(capture.width, 1920);
    assert_eq!(capture.height, 1080);
    assert_eq!(capture.fps, 60);
}
