//! Where every widget of the application stands.

use crate::geometry::Rect;
use crate::widget::Widget;
use vstd::prelude::*;

pub mod canvas;
pub mod kebab;
pub mod logo;
pub mod toolbox;
pub mod toolbox_button;
pub mod toolbox_buttons;
pub mod toolbox_dropdown;
pub mod toolbox_dropdowns;
pub mod toolbox_items;
pub mod toolbox_panel;
pub mod touch;

pub use canvas::canvas_region;
pub use kebab::get_kebab_region;
pub use toolbox::{is_toolbox_open, toggle_toolbox};
pub use toolbox_items::ToolboxItem;

verus! {

/// Top-level application elements only.
#[derive(Debug, Clone, Copy, PartialEq, Eq, Structural)]
pub enum AppElement {
    Kebab,
}

/// How far a wiped region reaches beyond what was asked for, on every side.
pub const CLEAR_MARGIN: u32 = 5;

impl AppElement {
    /// The characters of the element's name.
    pub open spec fn spec_name(self) -> Seq<char> {
        "Kebab"@
    }

    /// Gets the display name of an element.
    pub fn name(self) -> (name: String)
        ensures
            name@ == self.spec_name(),
    {
        match self {
            AppElement::Kebab => "Kebab".to_owned(),
        }
    }

    /// Creates the widget of an element.
    pub fn create(self, toolbox: &toolbox::Toolbox) -> (w: Widget)
        ensures
            w == kebab::spec_kebab(toolbox.is_open()),
    {
        match self {
            AppElement::Kebab => kebab::create(toolbox::is_toolbox_open(toolbox)),
        }
    }
}

/// The scene that the application starts with, as names and widgets: the
/// kebab alone.
pub fn init(toolbox: &toolbox::Toolbox) -> (scene: Vec<(String, Widget)>)
    ensures
        scene@.len() == 1,
        scene@[0].0@ == AppElement::Kebab.spec_name(),
        scene@[0].1 == kebab::spec_kebab(toolbox.is_open()),
{
    let mut scene: Vec<(String, Widget)> = Vec::new();
    scene.push((AppElement::Kebab.name(), AppElement::Kebab.create(toolbox)));
    scene
}

/// The near edge of a wiped region: `CLEAR_MARGIN` before `edge`, but not
/// before the display's edge.
pub open spec fn spec_clear_edge(edge: u32) -> int {
    if edge >= CLEAR_MARGIN {
        edge - CLEAR_MARGIN
    } else {
        0
    }
}

/// Whether a region can be wiped with its margin: its near edges must be
/// representable as signed coordinates, and its extent with the margin added
/// on either side must be representable at all.
pub open spec fn clearable(region: Rect) -> bool {
    &&& region.top <= i32::MAX
    &&& region.left <= i32::MAX
    &&& region.width + 2 * CLEAR_MARGIN <= u32::MAX
    &&& region.height + 2 * CLEAR_MARGIN <= u32::MAX
}

/// Whether a region can be wiped with its margin.
pub fn check_clearable(region: &Rect) -> (ok: bool)
    ensures
        ok == clearable(*region),
{
    region.top <= i32::MAX as u32 && region.left <= i32::MAX as u32 && region.width
        <= u32::MAX - 10 && region.height <= u32::MAX - 10
}

/// The region that is wiped to white in order to clear `region`: the region
/// with `CLEAR_MARGIN` pixels added on every side, cut off at the display's
/// upper and left edges.
pub fn clear_region(region: &Rect) -> (wiped: Rect)
    requires
        clearable(*region),
    ensures
        wiped.top == spec_clear_edge(region.top),
        wiped.left == spec_clear_edge(region.left),
        wiped.width == region.width + 2 * CLEAR_MARGIN,
        wiped.height == region.height + 2 * CLEAR_MARGIN,
        region.fits() ==> wiped.encloses(*region),
{
    let top: i32 = region.top as i32 - 5;
    let left: i32 = region.left as i32 - 5;
    Rect {
        top: if top > 0 { top as u32 } else { 0 },
        left: if left > 0 { left as u32 } else { 0 },
        width: region.width + 10,
        height: region.height + 10,
    }
}

} // verus!
