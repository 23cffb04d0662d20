//! The logic of a stylus and touch drawing application for an e-ink tablet:
//! regions and their merging, the layout of its panels and widgets, and the
//! decisions taken on every pen, finger and button event.
//!
//! Nothing here touches the device. Functions take what was measured or read
//! and return what is to be drawn or refreshed.

use vstd::prelude::*;

pub mod bitmap;
pub mod canvas;
pub mod draw_mode;
pub mod drawable;
pub mod geometry;
pub mod input;
pub mod layout;
pub mod refresh;
pub mod stroke;
pub mod text;
pub mod touch_mode;
pub mod widget;

verus! {

/// Width of the display, in pixels.
pub const DISPLAY_WIDTH: u16 = 1404;

/// Height of the display, in pixels.
pub const DISPLAY_HEIGHT: u16 = 1872;

/// Where the first row of toolbox buttons begins.
pub const APP_BUTTON_TOP: u16 = 68;

/// The space kept free to the left and right of a toolbox button.
pub const APP_BUTTON_GAP_H: u16 = 10;

/// The space kept free above and below a toolbox button.
pub const APP_BUTTON_GAP_V: u16 = 10;

/// The side of a toolbox button.
pub const APP_BUTTON_WIDTH: u16 = 32;

/// Half the side of a toolbox button.
pub const APP_BUTTON_WIDTH_HALF: u16 = APP_BUTTON_WIDTH / 2;

/// From one column of toolbox buttons to the next.
pub const APP_BUTTON_SPACE_H: u16 = APP_BUTTON_WIDTH + (APP_BUTTON_GAP_H * 2);

/// From one row of toolbox buttons to the next.
pub const APP_BUTTON_SPACE_V: u16 = APP_BUTTON_WIDTH + (APP_BUTTON_GAP_V * 2);

/// Where the toolbox's drop-down menus begin: below its two rows of buttons.
pub const APP_DROPDOWN_TOP: u16 = APP_BUTTON_TOP + (APP_BUTTON_SPACE_V * 2);

/// The display's upper edge.
pub const DISPLAY_EDGE_TOP: u16 = 0;

/// The display's right edge.
pub const DISPLAY_EDGE_RIGHT: u16 = DISPLAY_WIDTH;

} // verus!
