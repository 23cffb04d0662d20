//! The panel behind the toolbox.

use crate::geometry::{Point, Rect, Size};
use crate::widget::{RefreshPolicy, Widget, WidgetKind};
use crate::stroke::Ink;
use crate::{DISPLAY_EDGE_RIGHT, DISPLAY_EDGE_TOP};
use vstd::prelude::*;

verus! {

/// The thickness of the panel's border.
pub const TOOLBOX_PANEL_BORDER: u16 = 2;

/// The panel's width.
pub const TOOLBOX_PANEL_WIDTH: u16 = 300;

/// The panel's height.
pub const TOOLBOX_PANEL_HEIGHT: u16 = 450;

/// The panel's extent.
pub open spec fn spec_panel_size() -> Size {
    Size { width: TOOLBOX_PANEL_WIDTH as u32, height: TOOLBOX_PANEL_HEIGHT as u32 }
}

/// The panel's upper left corner: it sits in the display's upper right corner.
pub open spec fn spec_panel_point() -> Point {
    Point { x: (DISPLAY_EDGE_RIGHT - TOOLBOX_PANEL_WIDTH) as i32, y: DISPLAY_EDGE_TOP as i32 }
}

/// The panel as a widget.
pub open spec fn spec_panel() -> Widget {
    Widget::spec_region(
        spec_panel_point(),
        RefreshPolicy::Refresh,
        spec_panel_size(),
        TOOLBOX_PANEL_BORDER as u32,
    )
}

/// Creates the bordered region for the toolbox.
pub fn create() -> (w: Widget)
    ensures
        w == spec_panel(),
{
    Widget {
        position: get_toolbox_panel_point(),
        refresh: RefreshPolicy::Refresh,
        onclick: None,
        inner: WidgetKind::Region {
            size: get_toolbox_panel_size(),
            border_color: Ink::Black,
            border_px: TOOLBOX_PANEL_BORDER as u32,
        },
    }
}

/// The region of the display that the panel takes.
pub fn get_toolbox_panel_region() -> (r: Rect)
    ensures
        r.top == spec_panel_point().y,
        r.left == spec_panel_point().x,
        r.width == spec_panel_size().width,
        r.height == spec_panel_size().height,
        r == (Rect { top: 0, left: 1104, width: 300, height: 450 }),
{
    let size = get_toolbox_panel_size();
    let point = get_toolbox_panel_point();
    Rect { top: point.y as u32, left: point.x as u32, width: size.width, height: size.height }
}

/// The panel's extent.
pub fn get_toolbox_panel_size() -> (s: Size)
    ensures
        s == spec_panel_size(),
{
    Size { width: TOOLBOX_PANEL_WIDTH as u32, height: TOOLBOX_PANEL_HEIGHT as u32 }
}

/// The panel's upper left corner.
pub fn get_toolbox_panel_point() -> (p: Point)
    ensures
        p == spec_panel_point(),
{
    Point { x: (DISPLAY_EDGE_RIGHT - TOOLBOX_PANEL_WIDTH) as i32, y: DISPLAY_EDGE_TOP as i32 }
}

} // verus!
