//! Integer window geometry: where the window goes when it is resized, and how
//! the mouse wheel resizes it.
use vstd::prelude::*;

verus! {

/// Wheel events closer together than this many milliseconds are ignored.
pub const WHEEL_INTERVAL_MS: u64 = 25;

/// The wheel grows the window only while its height is below this.
pub const MAX_GROW_HEIGHT: u32 = 960;

/// The wheel shrinks the window only while its width is above this.
pub const MIN_SHRINK_WIDTH: u32 = 200;

/// The wheel shrinks the window only while its top edge is this far above the
/// bottom of the monitor.
pub const BOTTOM_MARGIN: i64 = 200;

/// Half of `d`, rounded toward zero.
pub open spec fn half_toward_zero(d: int) -> int {
    if d >= 0 {
        d / 2
    } else {
        -((-d) / 2)
    }
}

/// The position that keeps the window's horizontal centre and its bottom edge
/// in place when its size changes from `old_*` to `new_*`.
pub open spec fn anchored(x: i32, y: i32, old_w: u32, old_h: u32, new_w: u32, new_h: u32) -> (
    int,
    int,
) {
    (x + half_toward_zero(old_w - new_w), y + (old_h - new_h))
}

pub open spec fn fits_i32(v: int) -> bool {
    i32::MIN <= v <= i32::MAX
}

/// The new top-left corner of a resized window, or `None` when it would not
/// fit in screen coordinates.
pub fn anchored_position(x: i32, y: i32, old_w: u32, old_h: u32, new_w: u32, new_h: u32) -> (r:
    Option<(i32, i32)>)
    ensures
        ({
            let (ax, ay) = anchored(x, y, old_w, old_h, new_w, new_h);
            r == if fits_i32(ax) && fits_i32(ay) {
                Some((ax as i32, ay as i32))
            } else {
                None
            }
        }),
{
    let dw: i64 = old_w as i64 - new_w as i64;
    let half: i64 = if dw >= 0 {
        dw / 2
    } else {
        -((-dw) / 2)
    };
    let ax: i64 = x as i64 + half;
    let ay: i64 = y as i64 + (old_h as i64 - new_h as i64);
    if ax < i32::MIN as i64 || ax > i32::MAX as i64 || ay < i32::MIN as i64 || ay > i32::MAX as i64 {
        None
    } else {
        Some((ax as i32, ay as i32))
    }
}

/// The step multiplier of a wheel event: 3 for quick scrolling, down to 1 for
/// slow scrolling.
pub open spec fn wheel_accel(elapsed_ms: u64) -> int {
    if elapsed_ms / 20 >= 2 {
        1
    } else {
        3 - elapsed_ms / 20
    }
}

/// The window size after a wheel event `elapsed_ms` after the previous one,
/// or `None` when the size stays. A step is 20 pixels wide and 15 high, times
/// the multiplier.
pub open spec fn wheel_resized(
    width: u32,
    height: u32,
    grow: bool,
    elapsed_ms: u64,
    window_y: i32,
    monitor_height: u32,
) -> Option<(u32, u32)> {
    let dw = 20 * wheel_accel(elapsed_ms);
    let dh = 15 * wheel_accel(elapsed_ms);
    if elapsed_ms <= WHEEL_INTERVAL_MS {
        None
    } else if grow {
        if height < MAX_GROW_HEIGHT && width + dw <= u32::MAX {
            Some(((width + dw) as u32, (height + dh) as u32))
        } else {
            None
        }
    } else {
        if width > MIN_SHRINK_WIDTH && window_y < monitor_height - BOTTOM_MARGIN && height >= dh {
            Some(((width - dw) as u32, (height - dh) as u32))
        } else {
            None
        }
    }
}

/// Resizes the window by one wheel step: `grow` for a wheel turned up.
pub fn wheel_resize(
    width: u32,
    height: u32,
    grow: bool,
    elapsed_ms: u64,
    window_y: i32,
    monitor_height: u32,
) -> (r: Option<(u32, u32)>)
    ensures
        r == wheel_resized(width, height, grow, elapsed_ms, window_y, monitor_height),
{
    if elapsed_ms <= WHEEL_INTERVAL_MS {
        return None;
    }
    let slow: u64 = elapsed_ms / 20;
    let accel: u32 = if slow >= 2 {
        1
    } else {
        3 - slow as u32
    };
    let dw: u32 = 20 * accel;
    let dh: u32 = 15 * accel;
    if grow {
        if height < MAX_GROW_HEIGHT && width <= u32::MAX - dw {
            Some((width + dw, height + dh))
        } else {
            None
        }
    } else {
        if width > MIN_SHRINK_WIDTH && (window_y as i64) < monitor_height as i64 - BOTTOM_MARGIN
            && height >= dh {
            Some((width - dw, height - dh))
        } else {
            None
        }
    }
}

/// The side of the window icon, in pixels.
pub const ICON_SIZE: u32 = 48;

/// What the image decoder makes of `png` when it is an 8-bit RGBA image: its
/// raw pixel bytes, width and height.
pub uninterp spec fn rgba8_image(png: Seq<u8>) -> Option<(Seq<u8>, u32, u32)>;

/// Relies on image::load_from_memory, whose result depends on the bytes alone,
/// and on DynamicImage::as_rgba8, which gives the buffer of an 8-bit RGBA image
/// and nothing for an image of any other kind.
#[verifier::external_body]
fn decode_rgba8(png: &[u8]) -> (r: Option<(Vec<u8>, u32, u32)>)
    ensures
        r.is_some() == rgba8_image(png@).is_some(),
        r matches Some((p, w, h)) ==> rgba8_image(png@) == Some((p@, w, h)),
{
    let decoded = match image::load_from_memory(png) {
        Ok(d) => d,
        Err(_) => return None,
    };
    match decoded.as_rgba8() {
        Some(buffer) => Some((buffer.as_raw().to_vec(), buffer.width(), buffer.height())),
        None => None,
    }
}

/// The icon's pixels: present when `png` is an 8-bit RGBA image of
/// `ICON_SIZE` by `ICON_SIZE` pixels with four bytes for each.
pub open spec fn icon_pixels(png: Seq<u8>) -> Option<Seq<u8>> {
    match rgba8_image(png) {
        Some((p, w, h)) => if w == ICON_SIZE && h == ICON_SIZE && p.len() == 4 * ICON_SIZE
            * ICON_SIZE {
            Some(p)
        } else {
            None
        },
        None => None,
    }
}

/// Decodes the window icon into the RGBA bytes that the window system takes.
pub fn icon_rgba(png: &[u8]) -> (r: Option<Vec<u8>>)
    ensures
        r.is_some() == icon_pixels(png@).is_some(),
        r matches Some(q) ==> icon_pixels(png@) == Some(q@),
{
    match decode_rgba8(png) {
        Some((pixels, width, height)) => {
            let expected_len = (4 * ICON_SIZE * ICON_SIZE) as usize;
            if width == ICON_SIZE && height == ICON_SIZE && pixels.len() == expected_len {
                Some(pixels)
            } else {
                None
            }
        },
        None => None,
    }
}

} // verus!
