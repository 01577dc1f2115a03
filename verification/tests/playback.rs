use constellation::frame::VideoFormat;
use constellation::playback::{profile_for_extension, test_frame, PlaybackError, PlaybackState, ReadStep, VideoProfile};

#[test]
fn profiles_by_extension() {
    assert_eq!(profile_for_extension("mp4"), VideoProfile { width: 1920, height: 1080, fps: 30, total_frames: 3000 });
    assert_eq!(profile_for_extension("mov").fps, 30);
    assert_eq!(profile_for_extension("avi").total_frames, 3000);
    assert_eq!(profile_for_extension("webm"), VideoProfile { width: 1280, height: 720, fps: 25, total_frames: 2500 });
    assert_eq!(profile_for_extension("mkv").width, 1280);
    assert_eq!(profile_for_extension("flv"), VideoProfile { width: 640, height: 480, fps: 24, total_frames: 2400 });
    assert_eq!(profile_for_extension(""), profile_for_extension("txt"));
}

#[test]
fn playback_requires_open_file() {
    let mut s = PlaybackState::new();
    assert!(!s.is_open);
    assert_eq!(s.next_frame(None), Err(PlaybackError::NotOpen));
    assert_eq!(s.seek_to_frame(3), Err(PlaybackError::NotOpen));
    assert!(s.open(profile_for_extension("mp4")));
    assert!(!s.open(profile_for_extension("mkv")));
    assert_eq!((s.width, s.height, s.fps, s.total_frames), (1920, 1080, 30, Some(3000)));
}

#[test]
fn playback_follows_the_clock_forward_only() {
    let mut s = PlaybackState::new();
    s.open(profile_for_extension("webm"));
    assert_eq!(s.next_frame(None), Ok(ReadStep { frame: 0, restarted: false }));
    assert_eq!(s.next_frame(Some(10)), Ok(ReadStep { frame: 10, restarted: false }));
    assert_eq!(s.next_frame(Some(3)), Ok(ReadStep { frame: 11, restarted: false }));
    assert_eq!(s.current_frame, 12);
}

#[test]
fn playback_ends_or_loops_at_the_last_frame() {
    let mut s = PlaybackState::new();
    s.open(profile_for_extension("avi"));
    s.seek_to_frame(2999).unwrap();
    assert_eq!(s.next_frame(None), Ok(ReadStep { frame: 2999, restarted: false }));
    assert_eq!(s.next_frame(None), Err(PlaybackError::EndOfFile));
    s.set_loop_playback(true);
    assert_eq!(s.next_frame(None), Ok(ReadStep { frame: 0, restarted: true }));
    assert_eq!(s.current_frame, 1);
}

#[test]
fn playback_seek_bounds_and_close() {
    let mut s = PlaybackState::new();
    s.open(profile_for_extension("mp4"));
    assert_eq!(s.seek_to_frame(3000), Err(PlaybackError::FrameOutOfRange { frame: 3000, total: 3000 }));
    assert!(s.seek_to_frame(1500).is_ok());
    assert_eq!(s.current_frame, 1500);
    s.close();
    assert!(!s.is_open);
    assert_eq!(s.current_frame, 0);
}

#[test]
fn synthesized_frames_shift_with_the_frame_number() {
    let f = test_frame(4, 2, 101);
    assert_eq!((f.width, f.height, f.format), (4, 2, VideoFormat::Rgba8));
    // offset 1: red = (x + 1) * 255 / 4, green = (y + 1) * 255 / 2, blue = 255 / 100
    assert_eq!(&f.data[0..4], &[63, 127, 2, 255]);
    assert_eq!(&f.data[12..16], &[255, 127, 2, 255]);
    assert_eq!(&f.data[16..20], &[63, 255, 2, 255]);
    let g = test_frame(4, 1, 99);
    // offset 99: red wraps past 255
    assert_eq!(g.data[0], ((99u32 * 255 / 4) % 256) as u8);
}
