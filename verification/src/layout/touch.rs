//! A button of its own that switches finger input on and off.

use crate::geometry::Point;
use crate::widget::{ClickHandler, Icon, RefreshPolicy, Widget, WidgetKind};
use crate::{
    APP_BUTTON_GAP_V, APP_BUTTON_SPACE_H, APP_BUTTON_SPACE_V, APP_BUTTON_TOP, DISPLAY_EDGE_RIGHT,
};
use vstd::prelude::*;

verus! {

/// From the display's right edge to the button, besides one button's space.
pub const TOUCH_BUTTON_INSET: u16 = 200;

/// The image that the button shows once finger input has been switched from
/// `touch_active` to the other state.
pub open spec fn spec_switched_image(touch_active: bool) -> Icon {
    if touch_active {
        Icon::TouchOff
    } else {
        Icon::TouchOn
    }
}

/// The button, showing the state that finger input is switched to.
pub open spec fn spec_touch_button(touch_active: bool) -> Widget {
    Widget::spec_image(
        Point {
            x: (DISPLAY_EDGE_RIGHT - APP_BUTTON_SPACE_H - TOUCH_BUTTON_INSET) as i32,
            y: (APP_BUTTON_SPACE_V + APP_BUTTON_TOP + APP_BUTTON_GAP_V) as i32,
        },
        RefreshPolicy::Refresh,
        Some(ClickHandler::TouchSwitch),
        spec_switched_image(touch_active),
    )
}

/// Creates the button. Creating it switches finger input to the other
/// state, which the button then shows. Returns the button and whether finger
/// input is to be on from now.
pub fn create(touch_active: bool) -> (made: (Widget, bool))
    ensures
        made.0 == spec_touch_button(touch_active),
        made.0.position == (Point { x: 1152, y: 130 }),
        made.1 == !touch_active,
{
    let x: u16 = DISPLAY_EDGE_RIGHT - APP_BUTTON_SPACE_H - TOUCH_BUTTON_INSET;
    let y: u16 = APP_BUTTON_SPACE_V + APP_BUTTON_TOP + APP_BUTTON_GAP_V;
    let (active, img) = get_image(touch_active);
    (
        Widget {
            position: Point { x: x as i32, y: y as i32 },
            refresh: RefreshPolicy::Refresh,
            onclick: Some(ClickHandler::TouchSwitch),
            inner: WidgetKind::Image { img },
        },
        active,
    )
}

/// Switches finger input to the other state. Returns whether it is to be on
/// from now, and the image that shows so.
pub fn get_image(touch_active: bool) -> (next: (bool, Icon))
    ensures
        next.0 == !touch_active,
        next.1 == spec_switched_image(touch_active),
{
    match touch_active {
        true => (false, Icon::TouchOff),
        false => (true, Icon::TouchOn),
    }
}

/// A click on the button: finger input is switched to the other state, and
/// the button is to show the new one.
pub fn on_touch_toggle(touch_active: bool) -> (next: (bool, Icon))
    ensures
        next.0 == !touch_active,
        next.1 == spec_switched_image(touch_active),
{
    get_image(touch_active)
}

} // verus!
