//! From clip rectangles and callback targets to the rectangles of the device.
//!
//! Rectangles arrive in physical pixels, already scaled and rounded to the
//! nearest integer, with the origin in the top-left corner and `y` growing
//! downwards. The device addresses its framebuffer from the bottom-left corner,
//! so the vertical axis is flipped on the way.

use vstd::prelude::*;

verus! {

/// A rectangle in physical pixels, origin top-left.
#[derive(Clone, Copy, Debug, PartialEq, Eq, Structural)]
pub struct PixelRect {
    pub min_x: i32,
    pub min_y: i32,
    pub max_x: i32,
    pub max_y: i32,
}

/// A rectangle as the device takes it: lower-left corner and extent.
#[derive(Clone, Copy, Debug, PartialEq, Eq, Structural)]
pub struct DeviceRect {
    pub x: i32,
    pub y: i32,
    pub width: i32,
    pub height: i32,
}

/// `v` limited to the interval from `lo` to `hi`.
pub open spec fn clamp(v: int, lo: int, hi: int) -> int {
    if v < lo {
        lo
    } else if v > hi {
        hi
    } else {
        v
    }
}

/// A framebuffer size that the device can address with signed 32-bit
/// coordinates.
pub open spec fn addressable(screen_size_px: [u32; 2]) -> bool {
    screen_size_px[0] <= i32::MAX && screen_size_px[1] <= i32::MAX
}

/// The left edge of the scissor rectangle, counted from the left.
pub open spec fn clip_left(clip: PixelRect, screen_size_px: [u32; 2]) -> int {
    clamp(clip.min_x as int, 0, screen_size_px[0] as int)
}

/// The right edge of the scissor rectangle, counted from the left.
pub open spec fn clip_right(clip: PixelRect, screen_size_px: [u32; 2]) -> int {
    clamp(clip.max_x as int, clip_left(clip, screen_size_px), screen_size_px[0] as int)
}

/// The top edge of the scissor rectangle, counted from the top.
pub open spec fn clip_top(clip: PixelRect, screen_size_px: [u32; 2]) -> int {
    clamp(clip.min_y as int, 0, screen_size_px[1] as int)
}

/// The bottom edge of the scissor rectangle, counted from the top.
pub open spec fn clip_bottom(clip: PixelRect, screen_size_px: [u32; 2]) -> int {
    clamp(clip.max_y as int, clip_top(clip, screen_size_px), screen_size_px[1] as int)
}

/// The scissor rectangle of a clip rectangle: both corners clamped into the
/// framebuffer, the far corner never before the near one, and the vertical
/// axis flipped.
pub open spec fn scissor_of(clip: PixelRect, screen_size_px: [u32; 2]) -> DeviceRect {
    DeviceRect {
        x: clip_left(clip, screen_size_px) as i32,
        y: (screen_size_px[1] - clip_bottom(clip, screen_size_px)) as i32,
        width: (clip_right(clip, screen_size_px) - clip_left(clip, screen_size_px)) as i32,
        height: (clip_bottom(clip, screen_size_px) - clip_top(clip, screen_size_px)) as i32,
    }
}

fn clamp_i32(v: i32, lo: i32, hi: i32) -> (r: i32)
    requires
        lo <= hi,
    ensures
        r == clamp(v as int, lo as int, hi as int),
{
    if v < lo {
        lo
    } else if v > hi {
        hi
    } else {
        v
    }
}

/// The scissor rectangle of the device for a clip rectangle.
///
/// A clip rectangle that is empty after clamping gives an empty scissor
/// rectangle, which suppresses all drawing.
pub fn scissor_rect(clip: PixelRect, screen_size_px: [u32; 2]) -> (r: DeviceRect)
    requires
        addressable(screen_size_px),
    ensures
        r == scissor_of(clip, screen_size_px),
{
    let width: i32 = screen_size_px[0] as i32;
    let height: i32 = screen_size_px[1] as i32;
    let min_x: i32 = clamp_i32(clip.min_x, 0, width);
    let min_y: i32 = clamp_i32(clip.min_y, 0, height);
    let max_x: i32 = clamp_i32(clip.max_x, min_x, width);
    let max_y: i32 = clamp_i32(clip.max_y, min_y, height);
    DeviceRect { x: min_x, y: height - max_y, width: max_x - min_x, height: max_y - min_y }
}

/// Whether `v` is a signed 32-bit number.
pub open spec fn fits_i32(v: int) -> bool {
    i32::MIN <= v <= i32::MAX
}

/// Whether the viewport of a callback target can be given to the device:
/// its flipped lower edge, its width and its height are signed 32-bit
/// numbers.
pub open spec fn viewport_fits(target: PixelRect, screen_size_px: [u32; 2]) -> bool {
    &&& fits_i32(screen_size_px[1] - target.max_y)
    &&& fits_i32(target.max_x - target.min_x)
    &&& fits_i32(target.max_y - target.min_y)
}

/// The viewport of a callback target: the target itself, not clamped, with
/// the vertical axis flipped.
pub open spec fn viewport_of(target: PixelRect, screen_size_px: [u32; 2]) -> DeviceRect {
    DeviceRect {
        x: target.min_x,
        y: (screen_size_px[1] - target.max_y) as i32,
        width: (target.max_x - target.min_x) as i32,
        height: (target.max_y - target.min_y) as i32,
    }
}

/// The whole framebuffer as a device rectangle.
pub open spec fn full_viewport(screen_size_px: [u32; 2]) -> DeviceRect {
    DeviceRect { x: 0, y: 0, width: screen_size_px[0] as i32, height: screen_size_px[1] as i32 }
}

fn to_i32(v: i64) -> (r: Option<i32>)
    ensures
        r == if fits_i32(v as int) { Some(v as i32) } else { None::<i32> },
{
    if -0x8000_0000 <= v && v <= 0x7fff_ffff {
        Some(v as i32)
    } else {
        None
    }
}

/// The viewport for the target rectangle of a callback, or `None` where the
/// device cannot address it.
pub fn callback_viewport(target: PixelRect, screen_size_px: [u32; 2]) -> (r: Option<DeviceRect>)
    ensures
        r == if viewport_fits(target, screen_size_px) {
            Some(viewport_of(target, screen_size_px))
        } else {
            None::<DeviceRect>
        },
{
    let y: Option<i32> = to_i32(screen_size_px[1] as i64 - target.max_y as i64);
    let width: Option<i32> = to_i32(target.max_x as i64 - target.min_x as i64);
    let height: Option<i32> = to_i32(target.max_y as i64 - target.min_y as i64);
    match (y, width, height) {
        (Some(y), Some(width), Some(height)) => Some(
            DeviceRect { x: target.min_x, y, width, height },
        ),
        _ => None,
    }
}

/// A scissor rectangle lies inside the framebuffer on both axes, and its
/// vertical edges are those of the clamped clip rectangle counted from the
/// bottom: the lower edge is the framebuffer height less the clamped bottom,
/// the upper edge the framebuffer height less the clamped top.
pub proof fn lemma_scissor_inside_framebuffer(clip: PixelRect, screen_size_px: [u32; 2])
    requires
        addressable(screen_size_px),
    ensures
        ({
            let r = scissor_of(clip, screen_size_px);
            &&& 0 <= r.x
            &&& 0 <= r.width
            &&& r.x + r.width <= screen_size_px[0]
            &&& 0 <= r.y
            &&& 0 <= r.height
            &&& r.y + r.height <= screen_size_px[1]
            &&& r.y == screen_size_px[1] - clip_bottom(clip, screen_size_px)
            &&& r.y + r.height == screen_size_px[1] - clip_top(clip, screen_size_px)
            &&& 0 <= clip_top(clip, screen_size_px) <= clip_bottom(clip, screen_size_px)
                <= screen_size_px[1]
        }),
{
}

} // verus!
