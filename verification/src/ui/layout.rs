//! Placement of modal boxes inside the terminal area.

use vstd::prelude::*;

verus! {

/// A rectangle of terminal cells.
#[derive(Debug, Clone, Copy, PartialEq, Eq, Structural)]
pub struct Area {
    pub x: u16,
    pub y: u16,
    pub width: u16,
    pub height: u16,
}

/// Whether `area` lies within the coordinate range of the terminal.
pub open spec fn area_fits(area: Area) -> bool {
    area.x + area.width <= u16::MAX && area.y + area.height <= u16::MAX
}

/// A box of `width` by `height` cells, shrunk to fit `area`, centered in it.
pub fn centered_rect_fixed(width: u16, height: u16, area: Area) -> (r: Area)
    requires
        area_fits(area),
    ensures
        r.width == if width < area.width {
            width
        } else {
            area.width
        },
        r.height == if height < area.height {
            height
        } else {
            area.height
        },
        r.x == area.x + (area.width - r.width) / 2,
        r.y == area.y + (area.height - r.height) / 2,
        area_fits(r),
        area.x <= r.x && r.x + r.width <= area.x + area.width,
        area.y <= r.y && r.y + r.height <= area.y + area.height,
{
    let w = if width < area.width {
        width
    } else {
        area.width
    };
    let h = if height < area.height {
        height
    } else {
        area.height
    };
    Area { x: area.x + (area.width - w) / 2, y: area.y + (area.height - h) / 2, width: w, height: h }
}

/// `percent` percent (at most all) of `size` cells, rounded down.
pub open spec fn percent_of(size: u16, percent: u16) -> int {
    let p: int = if percent < 100 {
        percent as int
    } else {
        100
    };
    size * p / 100
}

pub fn scaled_size(size: u16, percent: u16) -> (r: u16)
    ensures
        r == percent_of(size, percent),
        r <= size,
{
    let p: u32 = if percent < 100 {
        percent as u32
    } else {
        100
    };
    let s = size as u32;
    assert(s * p / 100 <= s) by (nonlinear_arith)
        requires
            p <= 100,
    ;
    (s * p / 100) as u16
}

/// A box covering `percent_x` and `percent_y` percent of `area`, centered in it.
pub fn centered_rect_percent(percent_x: u16, percent_y: u16, area: Area) -> (r: Area)
    requires
        area_fits(area),
    ensures
        r.width == percent_of(area.width, percent_x),
        r.height == percent_of(area.height, percent_y),
        r.x == area.x + (area.width - r.width) / 2,
        r.y == area.y + (area.height - r.height) / 2,
        area_fits(r),
{
    let w = scaled_size(area.width, percent_x);
    let h = scaled_size(area.height, percent_y);
    centered_rect_fixed(w, h, area)
}

} // verus!
