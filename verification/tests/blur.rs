use constellation::blur::apply_box_blur;
use constellation::frame::{VideoFormat, VideoFrame};

fn frame(width: u32, height: u32, pixels: &[[u8; 4]]) -> VideoFrame {
    VideoFrame { width, height, format: VideoFormat::Rgba8, data: pixels.iter().flatten().copied().collect() }
}

#[test]
fn blur_row_averages_neighbours() {
    let mut f = frame(3, 1, &[[0, 10, 200, 7], [30, 10, 100, 8], [90, 10, 0, 9]]);
    apply_box_blur(&mut f, 1);
    assert_eq!(f.data, vec![15, 10, 150, 7, 40, 10, 100, 8, 60, 10, 50, 9]);
}

#[test]
fn blur_column_averages_neighbours() {
    let mut f = frame(1, 3, &[[0, 0, 0, 1], [30, 3, 6, 2], [90, 9, 3, 3]]);
    apply_box_blur(&mut f, 1);
    assert_eq!(f.data, vec![15, 1, 3, 1, 40, 4, 3, 2, 60, 6, 4, 3]);
}

#[test]
fn blur_runs_rows_then_columns() {
    let mut f = frame(2, 2, &[[100, 0, 0, 255], [0, 0, 0, 255], [0, 0, 0, 255], [0, 0, 0, 255]]);
    apply_box_blur(&mut f, 5);
    // rows: (50, 50), (0, 0); columns: each 25
    assert_eq!(f.data, vec![25, 0, 0, 255, 25, 0, 0, 255, 25, 0, 0, 255, 25, 0, 0, 255]);
}

#[test]
fn blur_keeps_uniform_frames_and_trailing_bytes() {
    let mut f = frame(4, 3, &[[12, 34, 56, 78]; 12]);
    f.data.extend_from_slice(&[1, 2, 3]);
    let before = f.data.clone();
    apply_box_blur(&mut f, 2);
    assert_eq!(f.data, before);
    assert_eq!((f.width, f.height, f.format), (4, 3, VideoFormat::Rgba8));
}

#[test]
fn blur_rounds_means_down() {
    let mut f = frame(2, 1, &[[1, 0, 255, 0], [2, 1, 254, 0]]);
    apply_box_blur(&mut f, 1);
    assert_eq!(f.data, vec![1, 0, 254, 0, 1, 0, 254, 0]);
}
