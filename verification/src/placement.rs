//! Where Hyprscreen's floating windows go: the dock, toasts, the thumbnail
//! card, the HUD, overlays, the webcam bubble. All in logical pixels.

use vstd::prelude::*;

use crate::hyprland::Monitor;
use crate::text::str_eq;

verus! {

/// A rectangle `(x, y, width, height)`.
pub type Rect = (i32, i32, i32, i32);

pub open spec fn fits_i32(v: int) -> bool {
    i32::MIN <= v <= i32::MAX
}

/// `max((avail - size) / 2, 0)` with Rust's truncating division: the
/// offset that centers `size` in `avail`, or 0 when it does not fit.
pub open spec fn center_offset(avail: int, size: int) -> int {
    if avail - size >= 0 {
        (avail - size) / 2
    } else {
        0
    }
}

/// `max(v, 0)`.
pub open spec fn clamp0(v: int) -> int {
    if v >= 0 {
        v
    } else {
        0
    }
}

/// Rust's `v / 2`, rounding toward zero.
pub open spec fn half_toward_zero(v: int) -> int {
    if v >= 0 {
        v / 2
    } else {
        -((-v) / 2)
    }
}

/// The rectangle of a monitor.
pub open spec fn monitor_rect(m: Monitor) -> Rect {
    (m.x, m.y, m.width, m.height)
}

/// The inputs on which centering a `w`×`h` window in `r` stays in `i32`.
pub open spec fn center_ok(r: Rect, w: int, h: int) -> bool {
    &&& fits_i32(r.2 - w)
    &&& fits_i32(r.3 - h)
    &&& fits_i32(r.0 + center_offset(r.2 as int, w))
    &&& fits_i32(r.1 + center_offset(r.3 as int, h))
}

fn offset(avail: i32, size: i32) -> (o: i64)
    requires
        fits_i32(avail - size),
    ensures
        o == center_offset(avail as int, size as int),
        0 <= o,
{
    let d = avail as i64 - size as i64;
    if d >= 0 {
        d / 2
    } else {
        0
    }
}

/// The top-left corner that centers a `w`×`h` window in `r` (pushed to the
/// left/top edge when it does not fit). A window that fits lies inside `r`,
/// with left and right margins that differ by at most one pixel.
pub fn center_in(r: Rect, w: i32, h: i32) -> (p: (i32, i32))
    requires
        center_ok(r, w as int, h as int),
    ensures
        p.0 == r.0 + center_offset(r.2 as int, w as int),
        p.1 == r.1 + center_offset(r.3 as int, h as int),
        0 <= w <= r.2 ==> r.0 <= p.0 && p.0 + w <= r.0 + r.2 && (p.0 - r.0) <= (r.0 + r.2) - (p.0
            + w) <= (p.0 - r.0) + 1,
        0 <= h <= r.3 ==> r.1 <= p.1 && p.1 + h <= r.1 + r.3 && (p.1 - r.1) <= (r.1 + r.3) - (p.1
            + h) <= (p.1 - r.1) + 1,
{
    let x = r.0 as i64 + offset(r.2, w);
    let y = r.1 as i64 + offset(r.3, h);
    (x as i32, y as i32)
}

/// Centers a `w`×`h` window on a monitor (annotation editor, shortcut sheet).
pub fn center_on(mon: &Monitor, w: i32, h: i32) -> (p: (i32, i32))
    requires
        center_ok(monitor_rect(*mon), w as int, h as int),
    ensures
        p.0 == mon.x + center_offset(mon.width as int, w as int),
        p.1 == mon.y + center_offset(mon.height as int, h as int),
        0 <= w <= mon.width ==> mon.x <= p.0 && p.0 + w <= mon.x + mon.width,
        0 <= h <= mon.height ==> mon.y <= p.1 && p.1 + h <= mon.y + mon.height,
{
    center_in((mon.x, mon.y, mon.width, mon.height), w, h)
}

/// The inputs on which a position `bottom` pixels above the monitor's
/// bottom edge stays in `i32`.
pub open spec fn bottom_ok(m: Monitor, w: int, h: int, gap: int) -> bool {
    &&& fits_i32(m.width - w)
    &&& fits_i32(m.x + center_offset(m.width as int, w))
    &&& fits_i32(m.height - h)
    &&& fits_i32(m.height - h - gap)
    &&& fits_i32(m.y + clamp0(m.height - h - gap))
}

fn bottom_center(mon: &Monitor, w: i32, h: i32, gap: i32) -> (p: (i32, i32))
    requires
        bottom_ok(*mon, w as int, h as int, gap as int),
    ensures
        p.0 == mon.x + center_offset(mon.width as int, w as int),
        p.1 == mon.y + clamp0(mon.height - h - gap),
{
    let x = mon.x as i64 + offset(mon.width, w);
    let d = mon.height as i64 - h as i64 - gap as i64;
    let y = mon.y as i64 + if d >= 0 {
        d
    } else {
        0
    };
    (x as i32, y as i32)
}

/// The dock: bottom-center on the monitor, 34px above its bottom edge.
pub fn dock_position(mon: &Monitor, w: i32, h: i32) -> (p: (i32, i32))
    requires
        bottom_ok(*mon, w as int, h as int, 34),
    ensures
        p.0 == mon.x + center_offset(mon.width as int, w as int),
        p.1 == mon.y + clamp0(mon.height - h - 34),
        0 <= h && h + 34 <= mon.height ==> p.1 + h + 34 == mon.y + mon.height,
        0 <= w <= mon.width ==> mon.x <= p.0 && p.0 + w <= mon.x + mon.width,
{
    bottom_center(mon, w, h, 34)
}

/// A toast: bottom-center, 130px above the bottom edge, so it sits above
/// the dock (about 76px tall, 34px margin, 12px gap).
pub fn toast_position(mon: &Monitor, w: i32, h: i32) -> (p: (i32, i32))
    requires
        bottom_ok(*mon, w as int, h as int, 130),
    ensures
        p.0 == mon.x + center_offset(mon.width as int, w as int),
        p.1 == mon.y + clamp0(mon.height - h - 130),
        0 <= h && h + 130 <= mon.height ==> p.1 + h + 130 == mon.y + mon.height,
        0 <= w <= mon.width ==> mon.x <= p.0 && p.0 + w <= mon.x + mon.width,
{
    bottom_center(mon, w, h, 130)
}

/// The inputs on which the thumbnail position stays in `i32`.
pub open spec fn top_right_ok(m: Monitor, w: int) -> bool {
    &&& fits_i32(m.width - w)
    &&& fits_i32(m.width - w - 22)
    &&& fits_i32(m.x + clamp0(m.width - w - 22))
    &&& fits_i32(m.y + 54)
}

/// The thumbnail card: top-right, 22px from the right edge and 54px below
/// the top edge.
pub fn thumbnail_position(mon: &Monitor, w: i32, h: i32) -> (p: (i32, i32))
    requires
        top_right_ok(*mon, w as int),
    ensures
        p.0 == mon.x + clamp0(mon.width - w - 22),
        p.1 == mon.y + 54,
        0 <= w && w + 22 <= mon.width ==> p.0 + w + 22 == mon.x + mon.width,
{
    let d = mon.width as i64 - w as i64 - 22;
    let x = mon.x as i64 + if d >= 0 {
        d
    } else {
        0
    };
    (x as i32, (mon.y as i64 + 54) as i32)
}

/// The inputs on which the HUD position stays in `i32`.
pub open spec fn hud_ok(r: Rect, w: int) -> bool {
    &&& fits_i32(r.2 - w)
    &&& fits_i32(r.0 + center_offset(r.2 as int, w))
    &&& fits_i32(r.1 + 18)
}

/// The recording HUD: centered at the top of the recorded monitor, 18px
/// below its top edge.
pub fn hud_position(r: Rect, w: i32) -> (p: (i32, i32))
    requires
        hud_ok(r, w as int),
    ensures
        p.0 == r.0 + center_offset(r.2 as int, w as int),
        p.1 == r.1 + 18,
        0 <= w <= r.2 ==> r.0 <= p.0 && p.0 + w <= r.0 + r.2,
{
    let x = r.0 as i64 + offset(r.2, w);
    (x as i32, (r.1 as i64 + 18) as i32)
}

/// The inputs on which the identifier overlay position stays in `i32`.
pub open spec fn identifier_ok(m: Monitor) -> bool {
    &&& fits_i32(m.width - 180)
    &&& fits_i32(m.height - 96)
    &&& fits_i32(m.x + half_toward_zero(m.width - 180))
    &&& fits_i32(m.y + half_toward_zero(m.height - 96))
}

/// A monitor identifier overlay (180×96): centered on its monitor.
pub fn identifier_position(mon: &Monitor) -> (p: (i32, i32))
    requires
        identifier_ok(*mon),
    ensures
        p.0 == mon.x + half_toward_zero(mon.width - 180),
        p.1 == mon.y + half_toward_zero(mon.height - 96),
{
    let dx = mon.width as i64 - 180;
    let dy = mon.height as i64 - 96;
    let hx = if dx >= 0 {
        dx / 2
    } else {
        -((-dx) / 2)
    };
    let hy = if dy >= 0 {
        dy / 2
    } else {
        -((-dy) / 2)
    };
    ((mon.x as i64 + hx) as i32, (mon.y as i64 + hy) as i32)
}

/// The inputs on which the recording indicator position stays in `i32`.
pub open spec fn indicator_ok(r: Rect) -> bool {
    &&& fits_i32(r.2 - 16)
    &&& fits_i32(r.0 + center_offset(r.2 as int, 16))
    &&& fits_i32(r.1 + r.3)
    &&& fits_i32(r.1 + r.3 - 16)
    &&& fits_i32(r.1 + r.3 - 36)
}

/// The recording indicator (16×16): bottom-center, 20px above the bottom
/// edge.
pub fn indicator_position(r: Rect) -> (p: (i32, i32))
    requires
        indicator_ok(r),
    ensures
        p.0 == r.0 + center_offset(r.2 as int, 16),
        p.1 == r.1 + r.3 - 16 - 20,
{
    let x = r.0 as i64 + offset(r.2, 16);
    let y = r.1 as i64 + r.3 as i64 - 16 - 20;
    (x as i32, y as i32)
}

/// The webcam bubble's diameter: the configured size clamped to 64..=512.
pub fn webcam_size(configured: u32) -> (s: i32)
    ensures
        s == (if configured < 64 {
            64
        } else if configured > 512 {
            512
        } else {
            configured as int
        }),
{
    if configured < 64 {
        64
    } else if configured > 512 {
        512
    } else {
        configured as i32
    }
}

/// Where the webcam bubble sits in a corner, 34px from both edges.
pub open spec fn webcam_corner(r: Rect, size: int, corner: Seq<char>) -> (int, int) {
    if corner == "bottom-right"@ {
        (r.0 + r.2 - size - 34, r.1 + r.3 - size - 34)
    } else if corner == "top-left"@ {
        (r.0 + 34, r.1 + 34)
    } else if corner == "top-right"@ {
        (r.0 + r.2 - size - 34, r.1 + 34)
    } else {
        (r.0 + 34, r.1 + r.3 - size - 34)
    }
}

/// The inputs on which every webcam corner stays in `i32`.
pub open spec fn webcam_ok(r: Rect, size: int) -> bool {
    &&& fits_i32(r.0 + r.2)
    &&& fits_i32(r.0 + r.2 - size)
    &&& fits_i32(r.0 + r.2 - size - 34)
    &&& fits_i32(r.1 + r.3)
    &&& fits_i32(r.1 + r.3 - size)
    &&& fits_i32(r.1 + r.3 - size - 34)
    &&& fits_i32(r.0 + 34)
    &&& fits_i32(r.1 + 34)
}

/// The webcam bubble's corner: `bottom-right`, `top-left`, `top-right`,
/// anything else meaning bottom-left.
pub fn webcam_position(r: Rect, size: i32, corner: &str) -> (p: (i32, i32))
    requires
        webcam_ok(r, size as int),
    ensures
        (p.0 as int, p.1 as int) == webcam_corner(r, size as int, corner@),
{
    let right = (r.0 as i64 + r.2 as i64 - size as i64 - 34) as i32;
    let bottom = (r.1 as i64 + r.3 as i64 - size as i64 - 34) as i32;
    let left = (r.0 as i64 + 34) as i32;
    let top = (r.1 as i64 + 34) as i32;
    if str_eq(corner, "bottom-right") {
        (right, bottom)
    } else if str_eq(corner, "top-left") {
        (left, top)
    } else if str_eq(corner, "top-right") {
        (right, top)
    } else {
        (left, bottom)
    }
}

} // verus!
