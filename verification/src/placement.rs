//! Window placement: right-aligned, vertically centered position of the
//! overlay on the primary display's work area.
//!
//! Coordinates are computed from the work area's width and height alone and
//! always refer to the primary display; behavior when the primary display
//! changes or is removed mid-run is a known limitation, not handled here.

use vstd::prelude::*;

verus! {

/// Fixed pixel width of the overlay; the window is right-aligned against the
/// work area using this width.
pub const OVERLAY_WIDTH: i32 = 560;

/// Nominal content height used only for the vertical centering math. It is
/// deliberately distinct from the actual window footprint below; the two
/// figures are decoupled on purpose.
pub const NOMINAL_CONTENT_HEIGHT: i32 = 500;

/// Actual footprint the overlay window is resized to.
pub const WINDOW_WIDTH: i32 = 570;

/// Actual footprint the overlay window is resized to.
pub const WINDOW_HEIGHT: i32 = 320;

/// The usable rectangle of a display, excluding OS-reserved regions such as
/// taskbars and docks. Queried fresh on every placement computation, never
/// cached.
pub struct WorkArea {
    pub x: i32,
    pub y: i32,
    pub width: i32,
    pub height: i32,
}

/// Horizontal overlay position for a work area of the given width.
pub open spec fn spec_overlay_x(width: int) -> int {
    width - OVERLAY_WIDTH
}

/// Vertical overlay position for a work area of the given height.
pub open spec fn spec_overlay_y(height: int) -> int {
    height / 2 - NOMINAL_CONTENT_HEIGHT / 2
}

impl WorkArea {
    /// The work area is large enough for the overlay's placement math.
    pub open spec fn fits_overlay(self) -> bool {
        self.width >= OVERLAY_WIDTH && self.height >= NOMINAL_CONTENT_HEIGHT
    }
}

/// Where the overlay goes on the given work area: right-aligned with the
/// overlay's fixed width, vertically centered using the nominal content
/// height.
pub fn overlay_position(area: &WorkArea) -> (pos: (i32, i32))
    requires
        area.fits_overlay(),
    ensures
        pos.0 as int == spec_overlay_x(area.width as int),
        pos.1 as int == spec_overlay_y(area.height as int),
{
    (area.width - OVERLAY_WIDTH, area.height / 2 - NOMINAL_CONTENT_HEIGHT / 2)
}

/// Placement determinism: for every work area of width at least 560 and
/// height at least 500, the placement is exactly (width - 560, height/2 - 250).
pub proof fn lemma_placement_deterministic(width: int, height: int)
    requires
        width >= 560,
        height >= 500,
    ensures
        spec_overlay_x(width) == width - 560,
        spec_overlay_y(height) == height / 2 - 250,
{
}

} // verus!
