//! The images of the toolbar.

use crate::widget::Icon;
use vstd::prelude::*;

verus! {

/// The images that the toolbar's buttons show.
pub struct Asset;

/// The side of a toolbar icon, in pixels.
pub const ICON_SIZE: u32 = 60;

impl Asset {
    /// The image of the save button.
    pub fn get_icon_save() -> (icon: Icon)
        ensures
            icon == Icon::Save,
    {
        Icon::Save
    }

    /// The image of the exit button.
    pub fn get_icon_exit() -> (icon: Icon)
        ensures
            icon == Icon::Exit,
    {
        Icon::Exit
    }

    /// The image of the clear button.
    pub fn get_icon_clear() -> (icon: Icon)
        ensures
            icon == Icon::Clear,
    {
        Icon::Clear
    }

    /// The arrow of a drop-down menu.
    pub fn get_icon_down() -> (icon: Icon)
        ensures
            icon == Icon::Down,
    {
        Icon::Down
    }
}

} // verus!
