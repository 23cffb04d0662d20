//! The drop-down menus of the toolbox: a bordered box with an arrow in it.

use super::toolbox_panel::TOOLBOX_PANEL_WIDTH;
use crate::geometry::{Point, Size};
use crate::stroke::Ink;
use crate::widget::{ClickHandler, Icon, RefreshPolicy, Widget, WidgetKind};
use crate::{
    APP_BUTTON_GAP_H, APP_BUTTON_GAP_V, APP_BUTTON_SPACE_H, APP_DROPDOWN_TOP, DISPLAY_EDGE_RIGHT,
};
use vstd::prelude::*;

verus! {

/// The number of widgets that make one drop-down menu.
pub const DROPDOWN_ELEMENT_COUNT: u16 = 2;

/// The height of a menu's box.
pub const DROPDOWN_BOX_HEIGHT: u16 = 32;

/// From the display's right edge to the left edge of a menu's box.
pub const DROPDOWN_BOX_INSET: u16 = 273;

/// The thickness of the border of a menu's box.
pub const DROPDOWN_BORDER: u32 = 2;

/// The width of a menu's box: eight tenths of the panel's width, rounded to
/// the nearest pixel.
pub open spec fn spec_box_width() -> int {
    (TOOLBOX_PANEL_WIDTH * 8 + 5) / 10
}

/// Whether the toolbox has a menu row `row`: its widgets' coordinates must be
/// representable.
pub open spec fn in_rows(row: u16) -> bool {
    APP_DROPDOWN_TOP + APP_BUTTON_GAP_V * 2 + APP_BUTTON_SPACE_H * row <= u16::MAX
}

/// The box of the menu in row `row`.
pub open spec fn spec_dropdown_box(row: u16) -> Widget {
    Widget::spec_region(
        Point {
            x: (DISPLAY_EDGE_RIGHT - DROPDOWN_BOX_INSET) as i32,
            y: (APP_DROPDOWN_TOP + APP_BUTTON_SPACE_H * row + APP_BUTTON_GAP_V) as i32,
        },
        RefreshPolicy::RefreshAndWait,
        Size { width: spec_box_width() as u32, height: DROPDOWN_BOX_HEIGHT as u32 },
        DROPDOWN_BORDER,
    )
}

/// The arrow of the menu in row `row`: three gaps inside the box's right edge.
pub open spec fn spec_dropdown_arrow(row: u16) -> Widget {
    Widget::spec_image(
        Point {
            x: (DISPLAY_EDGE_RIGHT - DROPDOWN_BOX_INSET + spec_box_width() - APP_BUTTON_GAP_H * 3) as i32,
            y: (APP_DROPDOWN_TOP + APP_BUTTON_GAP_V * 2 + APP_BUTTON_SPACE_H * row) as i32,
        },
        RefreshPolicy::RefreshAndWait,
        None,
        Icon::Down,
    )
}

/// The widgets of the menu in row `row`: its box, then its arrow.
pub open spec fn spec_dropdown(row: u16) -> Seq<Widget> {
    seq![spec_dropdown_box(row), spec_dropdown_arrow(row)]
}

/// Creates a toolbox drop-down menu in the toolbox's rows system. What the
/// menu is to hold and what a click is to do have no effect yet: every menu
/// is an empty box with an arrow.
pub fn create_toolbox_dropdown(
    _inner: WidgetKind,
    _onclick: Option<ClickHandler>,
    row: u16,
) -> (widgets: Vec<Widget>)
    requires
        in_rows(row),
    ensures
        widgets@ == spec_dropdown(row),
        widgets@.len() == DROPDOWN_ELEMENT_COUNT,
{
    let box_height: u16 = DROPDOWN_BOX_HEIGHT;
    let box_width: u16 = (TOOLBOX_PANEL_WIDTH * 8 + 5) / 10;
    let box_x: u16 = DISPLAY_EDGE_RIGHT - DROPDOWN_BOX_INSET;
    let box_y: u16 = APP_DROPDOWN_TOP + (APP_BUTTON_SPACE_H * row) + APP_BUTTON_GAP_V;
    let arrow_x: u16 = (box_x + box_width) - (APP_BUTTON_GAP_H * 3);
    let arrow_y: u16 = APP_DROPDOWN_TOP + (APP_BUTTON_GAP_V * 2) + (APP_BUTTON_SPACE_H * row);
    let widgets = vec![
        Widget {
            position: Point { x: box_x as i32, y: box_y as i32 },
            refresh: RefreshPolicy::RefreshAndWait,
            onclick: None,
            inner: WidgetKind::Region {
                size: Size { width: box_width as u32, height: box_height as u32 },
                border_color: Ink::Black,
                border_px: DROPDOWN_BORDER,
            },
        },
        Widget {
            position: Point { x: arrow_x as i32, y: arrow_y as i32 },
            refresh: RefreshPolicy::RefreshAndWait,
            onclick: None,
            inner: WidgetKind::Image { img: Icon::Down },
        },
    ];
    assert(widgets@ =~= spec_dropdown(row));
    widgets
}

/// The toolbox has room for 1257 rows of menus.
pub proof fn lemma_rows_extent(row: u16)
    ensures
        in_rows(row) <==> row <= 1256,
{
    assert(APP_BUTTON_SPACE_H == 52 && APP_DROPDOWN_TOP == 172);
}

/// The arrow of a menu lies within its box, whatever the row.
pub proof fn lemma_arrow_in_box(row: u16)
    requires
        in_rows(row),
    ensures
        spec_dropdown_box(row).position.x <= spec_dropdown_arrow(row).position.x,
        spec_dropdown_arrow(row).position.x <= spec_dropdown_box(row).position.x
            + spec_box_width(),
        spec_dropdown_box(row).position.y <= spec_dropdown_arrow(row).position.y,
        spec_dropdown_arrow(row).position.y <= spec_dropdown_box(row).position.y
            + DROPDOWN_BOX_HEIGHT,
        spec_box_width() == 240,
{
}

} // verus!
