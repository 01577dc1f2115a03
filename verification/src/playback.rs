use vstd::prelude::*;
use crate::text::same_text;
use crate::camera::{lemma_rgba_byte, rgba_raster};
use crate::frame::{VideoFormat, VideoFrame, lemma_pixel_index, zeroed_bytes};

verus! {

/// What a video file is read as: its size, frame rate and length.
#[derive(Debug, Clone, Copy, PartialEq, Eq, Structural)]
pub struct VideoProfile {
    pub width: u32,
    pub height: u32,
    pub fps: u32,
    pub total_frames: u64,
}

/// The profile of a file by its extension (in lower case): MP4, MOV and AVI
/// files are 1920 x 1080 at 30 frames per second, WebM and MKV 1280 x 720 at
/// 25, anything else 640 x 480 at 24; all run 100 seconds.
pub open spec fn spec_profile_for_extension(ext: Seq<char>) -> VideoProfile {
    if ext == "mp4"@ || ext == "mov"@ || ext == "avi"@ {
        VideoProfile { width: 1920, height: 1080, fps: 30, total_frames: 3000 }
    } else if ext == "webm"@ || ext == "mkv"@ {
        VideoProfile { width: 1280, height: 720, fps: 25, total_frames: 2500 }
    } else {
        VideoProfile { width: 640, height: 480, fps: 24, total_frames: 2400 }
    }
}

/// The profile of a file by its extension (in lower case).
pub fn profile_for_extension(ext: &str) -> (p: VideoProfile)
    ensures
        p == spec_profile_for_extension(ext@),
{
    if same_text(ext, "mp4") || same_text(ext, "mov") || same_text(ext, "avi") {
        VideoProfile { width: 1920, height: 1080, fps: 30, total_frames: 3000 }
    } else if same_text(ext, "webm") || same_text(ext, "mkv") {
        VideoProfile { width: 1280, height: 720, fps: 25, total_frames: 2500 }
    } else {
        VideoProfile { width: 640, height: 480, fps: 24, total_frames: 2400 }
    }
}

/// Why a playback request was refused.
#[derive(Debug, Clone, Copy, PartialEq, Eq, Structural)]
pub enum PlaybackError {
    /// The file is not open.
    NotOpen,
    /// The last frame was read and playback does not loop.
    EndOfFile,
    /// A seek past the last frame.
    FrameOutOfRange { frame: u64, total: u64 },
}

/// Which frame a read delivers, and whether playback went back to the start
/// (the clock that paces it restarts then).
#[derive(Debug, Clone, Copy, PartialEq, Eq, Structural)]
pub struct ReadStep {
    pub frame: u64,
    pub restarted: bool,
}

/// The playback position of a video file: whether it is open, the next frame,
/// the length once known, looping, and the frame geometry.
#[derive(Debug, Clone, Copy, PartialEq, Eq, Structural)]
pub struct PlaybackState {
    pub is_open: bool,
    pub current_frame: u64,
    pub total_frames: Option<u64>,
    pub loop_playback: bool,
    pub width: u32,
    pub height: u32,
    pub fps: u32,
}

impl PlaybackState {
    /// An open file knows its length.
    pub open spec fn wf(&self) -> bool {
        self.is_open ==> self.total_frames is Some
    }

    /// A closed file at frame 0, not looping, 1920 x 1080 at 30 frames per second.
    pub fn new() -> (s: Self)
        ensures
            s.wf(),
            s == (PlaybackState {
                is_open: false,
                current_frame: 0,
                total_frames: None,
                loop_playback: false,
                width: 1920,
                height: 1080,
                fps: 30,
            }),
    {
        PlaybackState {
            is_open: false,
            current_frame: 0,
            total_frames: None,
            loop_playback: false,
            width: 1920,
            height: 1080,
            fps: 30,
        }
    }

    /// Open the file with the given profile; the result says whether it was
    /// closed before (then the clock starts). An open file is left as it is.
    pub fn open(&mut self, profile: VideoProfile) -> (opened: bool)
        requires
            old(self).wf(),
        ensures
            final(self).wf(),
            opened == !old(self).is_open,
            old(self).is_open ==> *final(self) == *old(self),
            !old(self).is_open ==> *final(self) == (PlaybackState {
                is_open: true,
                width: profile.width,
                height: profile.height,
                fps: profile.fps,
                total_frames: Some(profile.total_frames),
                ..*old(self)
            }),
    {
        if self.is_open {
            return false;
        }
        self.width = profile.width;
        self.height = profile.height;
        self.fps = profile.fps;
        self.total_frames = Some(profile.total_frames);
        self.is_open = true;
        true
    }

    /// Close the file and go back to frame 0; a closed file is left as it is.
    pub fn close(&mut self)
        requires
            old(self).wf(),
        ensures
            final(self).wf(),
            !old(self).is_open ==> *final(self) == *old(self),
            old(self).is_open ==> *final(self) == (PlaybackState { is_open: false, current_frame: 0, ..*old(self) }),
    {
        if !self.is_open {
            return;
        }
        self.is_open = false;
        self.current_frame = 0;
    }

    /// The frame to read next, given the frame the clock has reached (if it
    /// runs): playback moves forward to that frame, never back; past the
    /// last frame it loops to frame 0 or ends. The frame after the one read
    /// becomes the next.
    pub fn next_frame(&mut self, expected: Option<u64>) -> (r: Result<ReadStep, PlaybackError>)
        requires
            old(self).wf(),
        ensures
            final(self).wf(),
            final(self).is_open == old(self).is_open,
            final(self).total_frames == old(self).total_frames,
            final(self).loop_playback == old(self).loop_playback,
            final(self).width == old(self).width && final(self).height == old(self).height && final(self).fps == old(self).fps,
            !old(self).is_open ==> r == Err::<ReadStep, PlaybackError>(PlaybackError::NotOpen) && *final(self) == *old(self),
            old(self).is_open ==> ({
                let reached = match expected {
                    Some(e) => if e > old(self).current_frame { e } else { old(self).current_frame },
                    None => old(self).current_frame,
                };
                let total = old(self).total_frames->0;
                if reached >= total && !old(self).loop_playback {
                    r == Err::<ReadStep, PlaybackError>(PlaybackError::EndOfFile) && final(self).current_frame == reached
                } else if reached >= total {
                    r == Ok::<ReadStep, PlaybackError>(ReadStep { frame: 0, restarted: true })
                        && final(self).current_frame == 1
                } else {
                    r == Ok::<ReadStep, PlaybackError>(ReadStep { frame: reached, restarted: false })
                        && final(self).current_frame == reached + 1
                }
            }),
    {
        if !self.is_open {
            return Err(PlaybackError::NotOpen);
        }
        if let Some(e) = expected {
            if e > self.current_frame {
                self.current_frame = e;
            }
        }
        let mut restarted = false;
        let total = match self.total_frames {
            Some(t) => t,
            None => {
                return Err(PlaybackError::NotOpen);
            },
        };
        if self.current_frame >= total {
            if self.loop_playback {
                self.current_frame = 0;
                restarted = true;
            } else {
                return Err(PlaybackError::EndOfFile);
            }
        }
        let frame = self.current_frame;
        self.current_frame = self.current_frame + 1;
        Ok(ReadStep { frame, restarted })
    }

    /// Move to frame `frame_number`; refused while closed and past the last
    /// frame. The clock restarts from there.
    pub fn seek_to_frame(&mut self, frame_number: u64) -> (r: Result<(), PlaybackError>)
        requires
            old(self).wf(),
        ensures
            final(self).wf(),
            !old(self).is_open ==> r == Err::<(), PlaybackError>(PlaybackError::NotOpen) && *final(self) == *old(self),
            old(self).is_open && frame_number >= old(self).total_frames->0 ==> r == Err::<(), PlaybackError>(
                PlaybackError::FrameOutOfRange { frame: frame_number, total: old(self).total_frames->0 },
            ) && *final(self) == *old(self),
            old(self).is_open && frame_number < old(self).total_frames->0 ==> r is Ok
                && *final(self) == (PlaybackState { current_frame: frame_number, ..*old(self) }),
    {
        if !self.is_open {
            return Err(PlaybackError::NotOpen);
        }
        if let Some(total) = self.total_frames {
            if frame_number >= total {
                return Err(PlaybackError::FrameOutOfRange { frame: frame_number, total });
            }
        }
        self.current_frame = frame_number;
        Ok(())
    }

    /// Turn looping on or off.
    pub fn set_loop_playback(&mut self, enable: bool)
        requires
            old(self).wf(),
        ensures
            final(self).wf(),
            *final(self) == (PlaybackState { loop_playback: enable, ..*old(self) }),
    {
        self.loop_playback = enable;
    }
}

/// Pixel (x, y) of the synthesized frame number `frame` of a `w` x `h`
/// video: red rises along the row and green down the column, both shifted by
/// the frame number modulo 100, blue follows that shift; values past 255
/// wrap as bytes do.
pub open spec fn test_frame_pixel(w: int, h: int, frame: int) -> spec_fn(int, int) -> Seq<u8> {
    |x: int, y: int|
        {
            let off = frame % 100;
            seq![((x + off) * 255 / w) as u8, ((y + off) * 255 / h) as u8, (off * 255 / 100) as u8, 255u8]
        }
}

/// The synthesized RGBA frame number `frame` of a `w` x `h` video.
pub fn test_frame(w: u32, h: u32, frame: u64) -> (f: VideoFrame)
    requires
        w * h * 4 <= u32::MAX,
        (w + 99) * 255 <= u32::MAX,
        (h + 99) * 255 <= u32::MAX,
    ensures
        f.width == w,
        f.height == h,
        f.format == VideoFormat::Rgba8,
        f.data@ == rgba_raster(w as int, h as int, test_frame_pixel(w as int, h as int, frame as int)),
{
    let n = w * h;
    let mut data = zeroed_bytes((n * 4) as usize);
    let off = (frame % 100) as u32;
    let ghost target = rgba_raster(w as int, h as int, test_frame_pixel(w as int, h as int, frame as int));
    let blue = (off * 255 / 100) as u8;
    let mut p: u32 = 0;
    while p < n
        invariant
            n == w * h,
            w * h * 4 <= u32::MAX,
            (w + 99) * 255 <= u32::MAX,
            (h + 99) * 255 <= u32::MAX,
            off == frame % 100,
            blue == (off * 255 / 100) as u8,
            p <= n,
            target == rgba_raster(w as int, h as int, test_frame_pixel(w as int, h as int, frame as int)),
            data@.len() == n * 4,
            forall|k: int| 0 <= k < p * 4 ==> data@[k] == target[k],
        decreases n - p,
    {
        proof {
            assert(w > 0) by (nonlinear_arith)
                requires
                    0 <= p < w * h,
            ;
            assert(p / w < h) by (nonlinear_arith)
                requires
                    0 <= p < w * h,
                    w > 0,
            ;
            vstd::arithmetic::div_mod::lemma_fundamental_div_mod(p as int, w as int);
            lemma_pixel_index((p % w) as int, (p / w) as int, w as int, h as int);
        }
        let x = p % w;
        let y = p / w;
        let red = ((x + off) * 255 / w) as u8;
        let green = ((y + off) * 255 / h) as u8;
        let k = (p * 4) as usize;
        let ghost before = data@;
        data.set(k, red);
        data.set(k + 1, green);
        data.set(k + 2, blue);
        data.set(k + 3, 255);
        proof {
            assert(p == y * w + x) by (nonlinear_arith)
                requires
                    p == w * (p / w) + p % w,
                    x == p % w,
                    y == p / w,
            ;
            assert forall|j: int| 0 <= j < (p + 1) * 4 implies data@[j] == target[j] by {
                if j >= p * 4 {
                    lemma_rgba_byte(j, p as int, j - p * 4);
                } else {
                    assert(data@[j] == before[j]);
                }
            }
        }
        p = p + 1;
    }
    proof {
        assert(data@ =~= target);
    }
    VideoFrame { width: w, height: h, format: VideoFormat::Rgba8, data }
}

} // verus!
