//! The grid in which the toolbox keeps its buttons.

use crate::geometry::Point;
use crate::widget::{ClickHandler, RefreshPolicy, Widget, WidgetKind};
use crate::{
    APP_BUTTON_GAP_V, APP_BUTTON_SPACE_H, APP_BUTTON_SPACE_V, APP_BUTTON_TOP, DISPLAY_EDGE_RIGHT,
};
use vstd::prelude::*;

verus! {

/// From the display's right edge to the left edge of the first column.
pub const FIRST_COLUMN_INSET: u16 = 65;

/// Whether the grid has a place at `col` and `row`: columns run leftwards
/// from the right edge and must stay on the display, rows run downwards and
/// must stay representable.
pub open spec fn in_grid(col: u16, row: u16) -> bool {
    &&& APP_BUTTON_SPACE_H * col + FIRST_COLUMN_INSET <= DISPLAY_EDGE_RIGHT
    &&& APP_BUTTON_TOP + APP_BUTTON_SPACE_V * row + APP_BUTTON_GAP_V <= u16::MAX
}

/// The upper left corner of the grid's place at `col` and `row`.
pub open spec fn spec_button_point(col: u16, row: u16) -> Point {
    Point {
        x: (DISPLAY_EDGE_RIGHT - APP_BUTTON_SPACE_H * col - FIRST_COLUMN_INSET) as i32,
        y: (APP_BUTTON_TOP + APP_BUTTON_SPACE_V * row + APP_BUTTON_GAP_V) as i32,
    }
}

/// Creates a toolbox button in the toolbox's rows and columns system.
pub fn create_toolbox_button(
    inner: WidgetKind,
    onclick: Option<ClickHandler>,
    col: u16,
    row: u16,
) -> (w: Widget)
    requires
        in_grid(col, row),
    ensures
        w.position == spec_button_point(col, row),
        w.refresh == RefreshPolicy::RefreshAndWait,
        w.onclick == onclick,
        w.inner == inner,
{
    let x: u16 = DISPLAY_EDGE_RIGHT - (APP_BUTTON_SPACE_H * col) - FIRST_COLUMN_INSET;
    let y: u16 = APP_BUTTON_TOP + (APP_BUTTON_SPACE_V * row) + APP_BUTTON_GAP_V;
    Widget {
        position: Point { x: x as i32, y: y as i32 },
        refresh: RefreshPolicy::RefreshAndWait,
        onclick,
        inner,
    }
}

/// The grid has 26 columns and 1259 rows.
pub proof fn lemma_grid_extent(col: u16, row: u16)
    ensures
        in_grid(col, row) <==> col <= 25 && row <= 1258,
{
    assert(APP_BUTTON_SPACE_H == 52 && APP_BUTTON_SPACE_V == 52);
}

/// Places in different columns or rows do not overlap: they lie at least one
/// button's space apart.
pub proof fn lemma_grid_places_apart(col_a: u16, row_a: u16, col_b: u16, row_b: u16)
    requires
        in_grid(col_a, row_a),
        in_grid(col_b, row_b),
    ensures
        col_a < col_b ==> spec_button_point(col_b, row_b).x + APP_BUTTON_SPACE_H
            <= spec_button_point(col_a, row_a).x,
        row_a < row_b ==> spec_button_point(col_a, row_a).y + APP_BUTTON_SPACE_V
            <= spec_button_point(col_b, row_b).y,
        0 <= spec_button_point(col_a, row_a).x <= DISPLAY_EDGE_RIGHT - FIRST_COLUMN_INSET,
{
    assert(APP_BUTTON_SPACE_H == 52 && APP_BUTTON_SPACE_V == 52);
}

} // verus!
