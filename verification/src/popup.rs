//! Popup geometry: the centered sub-rectangle a modal overlay draws into.
//!
//! A popup never owns the whole screen: the controller hands it a centered
//! sub-region sized as a percentage of the available area. The drawing
//! itself belongs to the presentation shell; what is computed here, and
//! proved, is the region: its sides are the requested percentage of the
//! area's sides (rounded down), it is centered, and it lies inside the
//! area it was cut from.

use vstd::prelude::*;

verus! {

/// A rectangular region of the render surface.
#[derive(Clone, Copy, Debug, PartialEq, Eq, Structural)]
pub struct Region {
    pub x: u16,
    pub y: u16,
    pub width: u16,
    pub height: u16,
}

impl Region {
    /// A region that does not run off the render surface's coordinate
    /// space.
    pub open spec fn wf(self) -> bool {
        &&& self.x + self.width <= u16::MAX
        &&& self.y + self.height <= u16::MAX
    }
}

/// The centered sub-region of `area` whose width is `percent_x` percent of
/// the area's width and whose height is `percent_y` percent of its height,
/// both rounded down.
pub fn popup_area(area: Region, percent_x: u16, percent_y: u16) -> (r: Region)
    requires
        percent_x <= 100,
        percent_y <= 100,
        area.wf(),
    ensures
        r.width == area.width * percent_x / 100,
        r.height == area.height * percent_y / 100,
        r.x == area.x + (area.width - r.width) / 2,
        r.y == area.y + (area.height - r.height) / 2,
        area.x <= r.x && r.x + r.width <= area.x + area.width,
        area.y <= r.y && r.y + r.height <= area.y + area.height,
        r.wf(),
{
    proof {
        assert(area.width * percent_x <= area.width * 100) by (nonlinear_arith)
            requires percent_x <= 100;
        assert(area.height * percent_y <= area.height * 100) by (nonlinear_arith)
            requires percent_y <= 100;
        assert(area.width * 100 / 100 == area.width);
        assert(area.height * 100 / 100 == area.height);
    }
    let w = ((area.width as u32) * (percent_x as u32) / 100) as u16;
    let h = ((area.height as u32) * (percent_y as u32) / 100) as u16;
    let x = area.x + (area.width - w) / 2;
    let y = area.y + (area.height - h) / 2;
    Region { x, y, width: w, height: h }
}

} // verus!
