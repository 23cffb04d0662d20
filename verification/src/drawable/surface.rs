//! The drawing surface below the toolbar.

use crate::geometry::Rect;
use crate::DISPLAY_WIDTH;
use vstd::prelude::*;

verus! {

/// The surface. It has nothing to draw of its own; it knows the region that
/// is refreshed when what lies on it changes.
pub struct AppSurface {
    pub partial_refresh_rect: Rect,
}

/// Where the surface begins: one pixel below the toolbar, so that clearing
/// the surface clears nothing of the toolbar.
pub const APP_TOOLBAR_OFFSET: u32 = 58 + 1;

/// The surface's height.
pub const APP_SURFACE_HEIGHT: u32 = DISPLAY_WIDTH as u32 - APP_TOOLBAR_OFFSET;

/// The surface's width: that of the display.
pub const APP_SURFACE_WIDTH: u32 = DISPLAY_WIDTH as u32;

impl AppSurface {
    /// The surface: as wide as the display, from below the toolbar.
    pub fn new() -> (surface: AppSurface)
        ensures
            surface.partial_refresh_rect == (Rect {
                top: APP_TOOLBAR_OFFSET,
                left: 0,
                width: APP_SURFACE_WIDTH,
                height: APP_SURFACE_HEIGHT,
            }),
            surface.partial_refresh_rect.width == DISPLAY_WIDTH,
            surface.partial_refresh_rect.bottom() == DISPLAY_WIDTH,
            surface.partial_refresh_rect.fits(),
    {
        AppSurface {
            partial_refresh_rect: Rect {
                top: APP_TOOLBAR_OFFSET,
                left: 0,
                width: APP_SURFACE_WIDTH,
                height: APP_SURFACE_HEIGHT,
            },
        }
    }
}

} // verus!
