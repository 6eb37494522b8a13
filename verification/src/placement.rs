//! Placement engine for the overlay window.
//!
//! Given the anchor point (typically the cursor) and, when it can be
//! resolved, the geometry of the display containing it, compute where the
//! fixed-size overlay window goes. With geometry, the centred candidate is
//! clamped on each axis independently, lower bound first; without geometry
//! the candidate is returned unclamped (a deliberate degraded mode).

use vstd::prelude::*;

verus! {

/// Width of the overlay window, in pixels.
pub const OVERLAY_WIDTH: i64 = 600;

/// Height of the overlay window, in pixels.
pub const OVERLAY_HEIGHT: i64 = 80;

/// Margin kept free at the left screen edge.
pub const LEFT_BUFFER: i64 = 20;

/// Margin kept free at the right screen edge.
pub const RIGHT_BUFFER: i64 = 20;

/// Margin kept free at the top screen edge (menu bar).
pub const TOP_BUFFER: i64 = 40;

/// Margin kept free at the bottom screen edge (dock).
pub const BOTTOM_BUFFER: i64 = 100;

/// Bound on every geometry field: displays report 32-bit pixel counts.
pub const MAX_DIMENSION: i64 = 0xFFFF_FFFF;

/// Size of the display that contains the anchor point, together with the
/// four margins reserved for system chrome.
#[derive(Clone, Copy, PartialEq, Eq, Structural, Debug)]
pub struct DisplayGeometry {
    pub width: i64,
    pub height: i64,
    pub left_buffer: i64,
    pub right_buffer: i64,
    pub top_buffer: i64,
    pub bottom_buffer: i64,
}

impl DisplayGeometry {
    /// Every field is a plausible pixel count: non-negative and within 32 bits.
    pub open spec fn wf(self) -> bool {
        &&& 0 <= self.width <= MAX_DIMENSION
        &&& 0 <= self.height <= MAX_DIMENSION
        &&& 0 <= self.left_buffer <= MAX_DIMENSION
        &&& 0 <= self.right_buffer <= MAX_DIMENSION
        &&& 0 <= self.top_buffer <= MAX_DIMENSION
        &&& 0 <= self.bottom_buffer <= MAX_DIMENSION
    }

    /// Geometry of a monitor of the given size, with the standard chrome margins.
    pub fn new(width: u32, height: u32) -> (r: Self)
        ensures
            r.wf(),
            r.width == width as i64,
            r.height == height as i64,
            r.left_buffer == LEFT_BUFFER,
            r.right_buffer == RIGHT_BUFFER,
            r.top_buffer == TOP_BUFFER,
            r.bottom_buffer == BOTTOM_BUFFER,
    {
        DisplayGeometry {
            width: width as i64,
            height: height as i64,
            left_buffer: LEFT_BUFFER,
            right_buffer: RIGHT_BUFFER,
            top_buffer: TOP_BUFFER,
            bottom_buffer: BOTTOM_BUFFER,
        }
    }
}

/// Position and size computed for the overlay window.
#[derive(Clone, Copy, PartialEq, Eq, Structural, Debug)]
pub struct OverlayRect {
    pub x: i64,
    pub y: i64,
    pub width: i64,
    pub height: i64,
}

/// Half the overlay width: the horizontal offset that centres it on the anchor.
pub open spec fn half_width() -> int {
    OVERLAY_WIDTH as int / 2
}

/// Horizontal candidate position: the overlay centred on the anchor.
pub open spec fn unbounded_x(anchor_x: int) -> int {
    anchor_x - half_width()
}

/// Horizontal position after the two-branch clamp: pushed right of the left
/// margin first, otherwise pulled left of the right margin. Only one branch
/// fires; on a display too narrow for overlay plus margins the result may
/// still lie outside the screen, which is the accepted behaviour.
pub open spec fn clamped_x(anchor_x: int, g: DisplayGeometry) -> int {
    let raw = unbounded_x(anchor_x);
    if raw < g.left_buffer as int {
        g.left_buffer as int
    } else if raw + OVERLAY_WIDTH as int > g.width as int - g.right_buffer as int {
        g.width as int - OVERLAY_WIDTH as int - g.right_buffer as int
    } else {
        raw
    }
}

/// Vertical position after the two-branch clamp; the candidate is the anchor
/// itself (the overlay's top edge sits at the anchor).
pub open spec fn clamped_y(anchor_y: int, g: DisplayGeometry) -> int {
    if anchor_y < g.top_buffer as int {
        g.top_buffer as int
    } else if anchor_y + OVERLAY_HEIGHT as int > g.height as int - g.bottom_buffer as int {
        g.height as int - OVERLAY_HEIGHT as int - g.bottom_buffer as int
    } else {
        anchor_y
    }
}

/// Horizontal placement: clamped when geometry is known, the bare centred
/// candidate when it is not.
pub open spec fn placed_x(anchor_x: int, geometry: Option<DisplayGeometry>) -> int {
    match geometry {
        Some(g) => clamped_x(anchor_x, g),
        None => unbounded_x(anchor_x),
    }
}

/// Vertical placement: clamped when geometry is known, the anchor itself
/// when it is not.
pub open spec fn placed_y(anchor_y: int, geometry: Option<DisplayGeometry>) -> int {
    match geometry {
        Some(g) => clamped_y(anchor_y, g),
        None => anchor_y,
    }
}

/// Compute the overlay rectangle for an anchor point. Pure: no shared state,
/// safe to call repeatedly. The bounds on the anchor only keep the pixel
/// arithmetic within `i64`.
pub fn place(anchor_x: i64, anchor_y: i64, geometry: Option<DisplayGeometry>) -> (r: OverlayRect)
    requires
        i64::MIN + OVERLAY_WIDTH as int / 2 <= anchor_x,
        geometry is Some ==> anchor_x <= i64::MAX - OVERLAY_WIDTH as int / 2,
        geometry is Some ==> anchor_y <= i64::MAX - OVERLAY_HEIGHT,
        geometry matches Some(g) ==> g.wf(),
    ensures
        r.x == placed_x(anchor_x as int, geometry),
        r.y == placed_y(anchor_y as int, geometry),
        r.width == OVERLAY_WIDTH,
        r.height == OVERLAY_HEIGHT,
{
    let x0: i64 = anchor_x - OVERLAY_WIDTH / 2;
    match geometry {
        None => OverlayRect { x: x0, y: anchor_y, width: OVERLAY_WIDTH, height: OVERLAY_HEIGHT },
        Some(g) => {
            let x: i64 = if x0 < g.left_buffer {
                g.left_buffer
            } else if x0 + OVERLAY_WIDTH > g.width - g.right_buffer {
                g.width - OVERLAY_WIDTH - g.right_buffer
            } else {
                x0
            };
            let y: i64 = if anchor_y < g.top_buffer {
                g.top_buffer
            } else if anchor_y + OVERLAY_HEIGHT > g.height - g.bottom_buffer {
                g.height - OVERLAY_HEIGHT - g.bottom_buffer
            } else {
                anchor_y
            };
            OverlayRect { x, y, width: OVERLAY_WIDTH, height: OVERLAY_HEIGHT }
        },
    }
}

} // verus!
