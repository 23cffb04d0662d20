//! The application's name, at the top of the toolbox.

use super::toolbox_panel::TOOLBOX_PANEL_WIDTH;
use crate::geometry::Point;
use crate::stroke::Ink;
use crate::widget::{RefreshPolicy, Widget, WidgetKind};
use crate::{APP_BUTTON_GAP_H, APP_BUTTON_SPACE_V, DISPLAY_EDGE_RIGHT, DISPLAY_EDGE_TOP};
use vstd::prelude::*;

verus! {

/// The size of the logo's letters.
pub const LOGO_SCALE: u32 = 35;

/// Where the logo stands: one gap inside the panel's left edge, and eight
/// pixels above the first row of buttons' line.
pub open spec fn spec_logo_point() -> Point {
    Point {
        x: ((DISPLAY_EDGE_RIGHT - TOOLBOX_PANEL_WIDTH) + APP_BUTTON_GAP_H) as i32,
        y: ((DISPLAY_EDGE_TOP + APP_BUTTON_SPACE_V) - 8) as i32,
    }
}

/// Whether `w` is the logo.
pub open spec fn is_logo(w: Widget) -> bool {
    &&& w.position == spec_logo_point()
    &&& w.refresh == RefreshPolicy::Refresh
    &&& w.onclick is None
    &&& w.inner.is_text("HarmonizeRs"@, LOGO_SCALE, Ink::Black, 0)
}

/// Creates the logo widget.
pub fn create() -> (w: Widget)
    ensures
        is_logo(w),
        w.position == (Point { x: 1114, y: 44 }),
{
    let x: u16 = (DISPLAY_EDGE_RIGHT - TOOLBOX_PANEL_WIDTH) + APP_BUTTON_GAP_H;
    let y: u16 = (DISPLAY_EDGE_TOP + APP_BUTTON_SPACE_V) - 8;
    Widget {
        position: Point { x: x as i32, y: y as i32 },
        refresh: RefreshPolicy::Refresh,
        onclick: None,
        inner: WidgetKind::Text {
            border_px: 0,
            foreground: Ink::Black,
            scale: LOGO_SCALE,
            text: "HarmonizeRs".to_owned(),
        },
    }
}

} // verus!
