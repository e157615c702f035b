//! Where the settings window is shown: at its saved position when that
//! lies on the monitor, else centred on it.
use vstd::prelude::*;

verus! {

pub open spec fn fits_i32(n: int) -> bool {
    i32::MIN <= n <= i32::MAX
}

/// Half of `n`, rounded toward zero, as integer division rounds.
pub open spec fn half_toward_zero(n: int) -> int {
    if n >= 0 {
        n / 2
    } else {
        -((-n) / 2)
    }
}

/// A pixel extent as the signed coordinate it is compared with.
pub open spec fn signed(n: u32) -> int {
    (n as i32) as int
}

/// The window, at the saved position and of the given size, does not lie
/// wholly on the monitor.
pub open spec fn out_of_bounds(sx: i32, sy: i32, w: u32, h: u32, mx: i32, my: i32, mw: u32, mh: u32) -> bool {
    ||| sx < mx
    ||| sy < my
    ||| sx + signed(w) > mx + signed(mw)
    ||| sy + signed(h) > my + signed(mh)
}

/// The window is centred when its saved position is the default (0, 0)
/// or does not lie on the monitor.
pub open spec fn needs_centering(sx: i32, sy: i32, w: u32, h: u32, mx: i32, my: i32, mw: u32, mh: u32) -> bool {
    (sx == 0 && sy == 0) || out_of_bounds(sx, sy, w, h, mx, my, mw, mh)
}

/// Every sum that the placement computes fits in an `i32` (the
/// comparisons being evaluated left to right, stopping at the first that
/// decides).
pub open spec fn placement_fits(sx: i32, sy: i32, w: u32, h: u32, mx: i32, my: i32, mw: u32, mh: u32) -> bool {
    &&& (!(sx == 0 && sy == 0) && sx >= mx && sy >= my) ==> {
        &&& fits_i32(sx + signed(w))
        &&& fits_i32(mx + signed(mw))
        &&& sx + signed(w) <= mx + signed(mw) ==> fits_i32(sy + signed(h)) && fits_i32(my + signed(mh))
    }
    &&& needs_centering(sx, sy, w, h, mx, my, mw, mh) ==> {
        &&& fits_i32(signed(mw) - signed(w))
        &&& fits_i32(signed(mh) - signed(h))
        &&& fits_i32(mx + half_toward_zero(signed(mw) - signed(w)))
        &&& fits_i32(my + half_toward_zero(signed(mh) - signed(h)))
    }
}

fn fits(n: i64) -> (r: bool)
    ensures
        r == fits_i32(n as int),
{
    -2147483648 <= n && n <= 2147483647
}

/// Whether [`place_setting_window`] may be called with these values: every
/// sum it computes fits in an `i32` (see [`placement_fits`]).
pub fn setting_window_placement_fits(
    saved_x: i32,
    saved_y: i32,
    width: u32,
    height: u32,
    monitor_x: i32,
    monitor_y: i32,
    monitor_width: u32,
    monitor_height: u32,
) -> (r: bool)
    ensures
        r == placement_fits(saved_x, saved_y, width, height, monitor_x, monitor_y, monitor_width, monitor_height),
{
    let w = (width as i32) as i64;
    let h = (height as i32) as i64;
    let mw = (monitor_width as i32) as i64;
    let mh = (monitor_height as i32) as i64;
    let sx = saved_x as i64;
    let sy = saved_y as i64;
    let mx = monitor_x as i64;
    let my = monitor_y as i64;
    let first = if !(saved_x == 0 && saved_y == 0) && sx >= mx && sy >= my {
        fits(sx + w) && fits(mx + mw) && (sx + w > mx + mw || (fits(sy + h) && fits(my + mh)))
    } else {
        true
    };
    let centered = (saved_x == 0 && saved_y == 0) || sx < mx || sy < my || sx + w > mx + mw || sy + h > my
        + mh;
    let second = if centered {
        let dx = mw - w;
        let dy = mh - h;
        let hx = if dx >= 0 { dx / 2 } else { -((-dx) / 2) };
        let hy = if dy >= 0 { dy / 2 } else { -((-dy) / 2) };
        fits(dx) && fits(dy) && fits(mx + hx) && fits(my + hy)
    } else {
        true
    };
    first && second
}

/// Where the window goes.
#[derive(Clone, Copy, Debug, PartialEq, Eq, Structural)]
pub struct WindowPlacement {
    pub x: i32,
    pub y: i32,
    /// Whether the window was centred rather than put at its saved position.
    pub centered: bool,
}

/// The position of a window of size `width` by `height` whose saved
/// position is (`saved_x`, `saved_y`), on a monitor at (`monitor_x`,
/// `monitor_y`) of size `monitor_width` by `monitor_height`: the saved
/// position when it is not the default and the window lies on the monitor,
/// else the centre of the monitor.
pub fn place_setting_window(
    saved_x: i32,
    saved_y: i32,
    width: u32,
    height: u32,
    monitor_x: i32,
    monitor_y: i32,
    monitor_width: u32,
    monitor_height: u32,
) -> (r: WindowPlacement)
    requires
        placement_fits(saved_x, saved_y, width, height, monitor_x, monitor_y, monitor_width, monitor_height),
    ensures
        r.centered == needs_centering(
            saved_x,
            saved_y,
            width,
            height,
            monitor_x,
            monitor_y,
            monitor_width,
            monitor_height,
        ),
        r.centered ==> r.x == monitor_x + half_toward_zero(signed(monitor_width) - signed(width)) && r.y
            == monitor_y + half_toward_zero(signed(monitor_height) - signed(height)),
        !r.centered ==> r.x == saved_x && r.y == saved_y,
{
    let w = (width as i32) as i64;
    let h = (height as i32) as i64;
    let mw = (monitor_width as i32) as i64;
    let mh = (monitor_height as i32) as i64;
    let sx = saved_x as i64;
    let sy = saved_y as i64;
    let mx = monitor_x as i64;
    let my = monitor_y as i64;
    let centered = (saved_x == 0 && saved_y == 0) || sx < mx || sy < my || sx + w > mx + mw || sy + h > my
        + mh;
    if centered {
        let dx = mw - w;
        let dy = mh - h;
        let hx = if dx >= 0 { dx / 2 } else { -((-dx) / 2) };
        let hy = if dy >= 0 { dy / 2 } else { -((-dy) / 2) };
        let x = mx + hx;
        let y = my + hy;
        WindowPlacement { x: x as i32, y: y as i32, centered: true }
    } else {
        WindowPlacement { x: saved_x, y: saved_y, centered: false }
    }
}

/// A window that keeps its saved position lies wholly on the monitor.
pub proof fn lemma_kept_position_on_monitor(
    sx: i32,
    sy: i32,
    w: u32,
    h: u32,
    mx: i32,
    my: i32,
    mw: u32,
    mh: u32,
)
    requires
        !needs_centering(sx, sy, w, h, mx, my, mw, mh),
    ensures
        mx <= sx,
        my <= sy,
        sx + signed(w) <= mx + signed(mw),
        sy + signed(h) <= my + signed(mh),
{
}

/// A centred window whose size fits the monitor lies wholly on it.
pub proof fn lemma_centered_window_on_monitor(w: u32, h: u32, mx: i32, my: i32, mw: u32, mh: u32)
    requires
        0 <= signed(w) <= signed(mw),
        0 <= signed(h) <= signed(mh),
    ensures
        mx <= mx + half_toward_zero(signed(mw) - signed(w)),
        mx + half_toward_zero(signed(mw) - signed(w)) + signed(w) <= mx + signed(mw),
        my <= my + half_toward_zero(signed(mh) - signed(h)),
        my + half_toward_zero(signed(mh) - signed(h)) + signed(h) <= my + signed(mh),
{
}

} // verus!
