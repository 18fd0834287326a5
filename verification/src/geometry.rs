//! Screen rectangles for mouse hit-testing: whether a cell lies inside an
//! area, and an area shrunk by a margin.

use vstd::prelude::*;

verus! {

/// A rectangle of terminal cells: its top-left corner and its size.
#[derive(Debug, Clone, Copy, PartialEq, Eq, Structural)]
pub struct Area {
    pub x: u16,
    pub y: u16,
    pub width: u16,
    pub height: u16,
}

/// The area lies on the screen: its right and bottom edges fit in a `u16`.
pub open spec fn on_screen(a: Area) -> bool {
    a.x + a.width <= u16::MAX && a.y + a.height <= u16::MAX
}

/// `n + m`, or the largest value when that does not fit.
pub open spec fn sat_add(n: u16, m: u16) -> u16 {
    if n + m > u16::MAX { u16::MAX } else { (n + m) as u16 }
}

/// `n - m`, or zero when that is negative.
pub open spec fn sat_sub(n: u16, m: u16) -> u16 {
    if n < m { 0 } else { (n - m) as u16 }
}

/// `2 * n`, or the largest value when that does not fit.
pub open spec fn sat_double(n: u16) -> u16 {
    if 2 * n > u16::MAX { u16::MAX } else { (2 * n) as u16 }
}

/// Whether the cell at column `x`, row `y` lies inside the area.
pub fn contains_point(rect: Area, x: u16, y: u16) -> (r: bool)
    requires
        on_screen(rect),
    ensures
        r == (rect.x <= x < rect.x + rect.width && rect.y <= y < rect.y + rect.height),
{
    x >= rect.x && x < rect.x + rect.width && y >= rect.y && y < rect.y + rect.height
}

/// The area with `margin` cells taken off each side; sizes stop at zero and
/// positions at the screen's edge.
pub fn shrink_rect(rect: Area, margin: u16) -> (r: Area)
    ensures
        r.x == sat_add(rect.x, margin),
        r.y == sat_add(rect.y, margin),
        r.width == sat_sub(rect.width, sat_double(margin)),
        r.height == sat_sub(rect.height, sat_double(margin)),
{
    let twice = match margin.checked_mul(2) {
        Some(v) => v,
        None => u16::MAX,
    };
    Area {
        x: rect.x.saturating_add(margin),
        y: rect.y.saturating_add(margin),
        width: rect.width.saturating_sub(twice),
        height: rect.height.saturating_sub(twice),
    }
}

} // verus!
