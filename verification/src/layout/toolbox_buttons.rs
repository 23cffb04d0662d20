//! The buttons of the toolbox.

use super::toolbox_button::{create_toolbox_button, in_grid, spec_button_point};
use crate::refresh::Refresh;
use crate::widget::{ClickHandler, Icon, RefreshPolicy, Widget, WidgetKind};
use vstd::prelude::*;

verus! {

/// A toolbox button that shows `img` at `col` and `row`.
pub open spec fn spec_button(img: Icon, onclick: Option<ClickHandler>, col: u16, row: u16) -> Widget {
    Widget::spec_image(spec_button_point(col, row), RefreshPolicy::RefreshAndWait, onclick, img)
}

/// The image of the touch toggle: lit while finger input is on.
pub open spec fn spec_touch_image(touch_active: bool) -> Icon {
    if touch_active {
        Icon::TouchOn
    } else {
        Icon::TouchOff
    }
}

/// The undo button.
pub fn create_undo_button(col: u16, row: u16) -> (w: Widget)
    requires
        in_grid(col, row),
    ensures
        w == spec_button(Icon::Undo, None, col, row),
{
    create_toolbox_button(WidgetKind::Image { img: Icon::Undo }, None, col, row)
}

/// The redo button.
pub fn create_redo_button(col: u16, row: u16) -> (w: Widget)
    requires
        in_grid(col, row),
    ensures
        w == spec_button(Icon::Redo, None, col, row),
{
    create_toolbox_button(WidgetKind::Image { img: Icon::Redo }, None, col, row)
}

/// The delete button.
pub fn create_delete_button(col: u16, row: u16) -> (w: Widget)
    requires
        in_grid(col, row),
    ensures
        w == spec_button(Icon::Delete, None, col, row),
{
    create_toolbox_button(WidgetKind::Image { img: Icon::Delete }, None, col, row)
}

/// The button for a new drawing.
pub fn create_new_button(col: u16, row: u16) -> (w: Widget)
    requires
        in_grid(col, row),
    ensures
        w == spec_button(Icon::New, None, col, row),
{
    create_toolbox_button(WidgetKind::Image { img: Icon::New }, None, col, row)
}

/// The open button.
pub fn create_open_button(col: u16, row: u16) -> (w: Widget)
    requires
        in_grid(col, row),
    ensures
        w == spec_button(Icon::Open, None, col, row),
{
    create_toolbox_button(WidgetKind::Image { img: Icon::Open }, None, col, row)
}

/// The save button.
pub fn create_save_button(col: u16, row: u16) -> (w: Widget)
    requires
        in_grid(col, row),
    ensures
        w == spec_button(Icon::Save, None, col, row),
{
    create_toolbox_button(WidgetKind::Image { img: Icon::Save }, None, col, row)
}

/// The clear button.
pub fn create_clear_button(col: u16, row: u16) -> (w: Widget)
    requires
        in_grid(col, row),
    ensures
        w == spec_button(Icon::Clear, None, col, row),
{
    create_toolbox_button(WidgetKind::Image { img: Icon::Clear }, None, col, row)
}

/// The refresh button. A click on it refreshes the whole display.
pub fn create_refresh_button(col: u16, row: u16) -> (w: Widget)
    requires
        in_grid(col, row),
    ensures
        w == spec_button(Icon::Refresh, Some(ClickHandler::RefreshTapped), col, row),
{
    create_toolbox_button(
        WidgetKind::Image { img: Icon::Refresh },
        Some(ClickHandler::RefreshTapped),
        col,
        row,
    )
}

/// What a click on the refresh button asks of the display.
pub fn on_refresh_tapped() -> (r: Refresh)
    ensures
        r == Refresh::spec_tapped(),
{
    Refresh::tapped()
}

/// The button that cycles through the orientations.
pub fn create_orientation_cycler(col: u16, row: u16) -> (w: Widget)
    requires
        in_grid(col, row),
    ensures
        w == spec_button(Icon::Orientation, None, col, row),
{
    create_toolbox_button(WidgetKind::Image { img: Icon::Orientation }, None, col, row)
}

/// The button that switches finger input on and off. It shows whether finger
/// input is on.
pub fn create_touch_toggle(touch_active: bool, col: u16, row: u16) -> (w: Widget)
    requires
        in_grid(col, row),
    ensures
        w == spec_button(
            spec_touch_image(touch_active),
            Some(ClickHandler::TouchToggle),
            col,
            row,
        ),
{
    create_toolbox_button(
        WidgetKind::Image { img: get_touch_image(touch_active) },
        Some(ClickHandler::TouchToggle),
        col,
        row,
    )
}

/// The image of the touch toggle.
pub fn get_touch_image(touch_active: bool) -> (img: Icon)
    ensures
        img == spec_touch_image(touch_active),
{
    match touch_active {
        false => Icon::TouchOff,
        true => Icon::TouchOn,
    }
}

/// A click on the touch toggle: finger input is switched to the other state,
/// and the toggle shows the new state. Returns whether finger input is to be
/// on from now, and the image to show.
pub fn on_touch_toggle(touch_active: bool) -> (next: (bool, Icon))
    ensures
        next.0 == !touch_active,
        next.1 == spec_touch_image(!touch_active),
{
    let active = !touch_active;
    (active, get_touch_image(active))
}

} // verus!
