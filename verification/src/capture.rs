//! Rules of screen capture: the capture size, frame pacing, timestamps, and
//! which captured frames are kept.
use vstd::prelude::*;

verus! {

/// Pixel format of captured frames.
#[derive(Clone, Copy, PartialEq, Eq, Structural, Debug)]
pub enum CapturePixelFormat {
    /// 32-bit BGRA.
    Bgra,
    /// NV12 (full range), handed to the hardware encoder as is.
    Nv12,
}

/// How the screen is captured.
#[derive(Clone, Copy, PartialEq, Eq, Structural, Debug)]
pub struct CaptureConfig {
    /// Capture width (0 = the display's).
    pub width: u32,
    /// Capture height (0 = the display's).
    pub height: u32,
    pub frame_rate: u32,
    pub pixel_format: CapturePixelFormat,
}

/// The capture size: each configured dimension, or the display's where the
/// configuration says 0.
pub fn capture_size(config: &CaptureConfig, display_width: u32, display_height: u32) -> (s: (u32, u32))
    ensures
        s.0 == if config.width == 0 {
            display_width
        } else {
            config.width
        },
        s.1 == if config.height == 0 {
            display_height
        } else {
            config.height
        },
{
    let w = if config.width == 0 {
        display_width
    } else {
        config.width
    };
    let h = if config.height == 0 {
        display_height
    } else {
        config.height
    };
    (w, h)
}

/// Microseconds between frames of the fallback capture: one second divided
/// by the frame rate, 30 frames per second when the rate is 0.
pub fn frame_interval_micros(frame_rate: u32) -> (us: u64)
    ensures
        us == 1_000_000int / (if frame_rate > 0 {
            frame_rate as int
        } else {
            30int
        }),
{
    let fps: u32 = if frame_rate > 0 {
        frame_rate
    } else {
        30
    };
    1_000_000u64 / (fps as u64)
}

/// A media timestamp (`value` ticks of `1 / timescale` seconds) in
/// microseconds, taken modulo 2^64; 0 when the timescale is not positive.
pub fn presentation_time_micros(value: i64, timescale: i32) -> (us: u64)
    requires
        timescale > 0 ==> value >= 0,
    ensures
        us == if timescale > 0 {
            (((value as int) * 1_000_000) / (timescale as int)) % 0x1_0000_0000_0000_0000
        } else {
            0
        },
{
    if timescale > 0 {
        let v = value as u128;
        let t = timescale as u128;
        assert(v * 1_000_000 <= u128::MAX) by (nonlinear_arith)
            requires
                v <= i64::MAX,
        ;
        let q = (v * 1_000_000) / t;
        (q % 0x1_0000_0000_0000_0000u128) as u64
    } else {
        0
    }
}

/// Status of a frame delivered by the capture stream.
#[derive(Clone, Copy, PartialEq, Eq, Structural, Debug)]
pub enum FrameStatus {
    Complete,
    Idle,
    Blank,
    Suspended,
    Started,
    Stopped,
}

/// Whether a delivered frame carries new content: not an idle, blank,
/// suspended or stopped notice. A frame without a status is kept.
pub fn frame_status_kept(status: Option<FrameStatus>) -> (kept: bool)
    ensures
        kept == match status {
            Some(FrameStatus::Idle) | Some(FrameStatus::Blank) | Some(FrameStatus::Suspended) | Some(
                FrameStatus::Stopped,
            ) => false,
            _ => true,
        },
{
    match status {
        Some(FrameStatus::Idle) | Some(FrameStatus::Blank) | Some(FrameStatus::Suspended) | Some(
            FrameStatus::Stopped,
        ) => false,
        _ => true,
    }
}

/// Whether a captured BGRA frame is usable: it has pixels.
pub fn frame_usable(width: u32, height: u32, pixel_bytes: usize) -> (ok: bool)
    ensures
        ok == (width > 0 && height > 0 && pixel_bytes > 0),
{
    !(width == 0 || height == 0 || pixel_bytes == 0)
}

} // verus!
