//! The kebab button, which opens and closes the toolbox.

use crate::geometry::{Point, Rect};
use crate::widget::{ClickHandler, Icon, RefreshPolicy, Widget, WidgetKind};
use crate::{APP_BUTTON_SPACE_H, APP_BUTTON_SPACE_V, DISPLAY_EDGE_RIGHT, DISPLAY_EDGE_TOP};
use vstd::prelude::*;

verus! {

/// The kebab's left edge: one button column from the display's right edge.
pub const KEBAB_X: u16 = DISPLAY_EDGE_RIGHT - APP_BUTTON_SPACE_H;

/// The kebab's upper edge.
pub const KEBAB_Y: u16 = DISPLAY_EDGE_TOP + (APP_BUTTON_SPACE_V / 2) - 8;

/// The side of the kebab's square.
pub const KEBAB_SIDE: u32 = 32;

/// The region that the kebab takes.
pub open spec fn spec_kebab_region() -> Rect {
    Rect { top: KEBAB_Y as u32, left: KEBAB_X as u32, width: KEBAB_SIDE, height: KEBAB_SIDE }
}

/// The kebab's image: lit while the toolbox is open.
pub open spec fn spec_kebab_image(open: bool) -> Icon {
    if open {
        Icon::KebabOn
    } else {
        Icon::KebabOff
    }
}

/// The kebab widget, for a toolbox that is open or not.
pub open spec fn spec_kebab(toolbox_open: bool) -> Widget {
    Widget::spec_image(
        Point { x: KEBAB_X as i32, y: KEBAB_Y as i32 },
        RefreshPolicy::Refresh,
        Some(ClickHandler::ToggleToolbox),
        spec_kebab_image(toolbox_open),
    )
}

/// Creates the kebab widget, for a toolbox that is open or not.
pub fn create(toolbox_open: bool) -> (w: Widget)
    ensures
        w == spec_kebab(toolbox_open),
{
    Widget {
        position: Point { x: KEBAB_X as i32, y: KEBAB_Y as i32 },
        refresh: RefreshPolicy::Refresh,
        onclick: Some(ClickHandler::ToggleToolbox),
        inner: WidgetKind::Image { img: get_kebab_image(toolbox_open) },
    }
}

/// The region that the kebab takes. The pen does not draw there.
pub fn get_kebab_region() -> (r: Rect)
    ensures
        r == spec_kebab_region(),
        r == (Rect { top: 18, left: 1352, width: 32, height: 32 }),
        r.fits(),
{
    Rect { top: KEBAB_Y as u32, left: KEBAB_X as u32, height: KEBAB_SIDE, width: KEBAB_SIDE }
}

/// The kebab's image.
pub fn get_kebab_image(open: bool) -> (img: Icon)
    ensures
        img == spec_kebab_image(open),
{
    match open {
        true => Icon::KebabOn,
        false => Icon::KebabOff,
    }
}

} // verus!
