//! The things that the toolbox holds.

use super::logo;
use super::logo::is_logo;
use super::toolbox_button::in_grid;
use super::toolbox_buttons;
use super::toolbox_buttons::{spec_button, spec_touch_image};
use super::toolbox_dropdown::{in_rows, spec_dropdown};
use super::toolbox_dropdowns;
use super::toolbox_panel;
use super::toolbox_panel::spec_panel;
use crate::widget::{ClickHandler, Icon, Widget};
use vstd::prelude::*;

verus! {

/// Disappearing toolbox elements only.
#[derive(Debug, Clone, Copy, PartialEq, Eq, Structural)]
pub enum ToolboxItem {
    Panel,
    Logo,
    Clear,
    Orientation,
    Refresh,
    Touch,
    New,
    Open,
    Save,
    Delete,
    Undo,
    Redo,
    BrushType,
    BrushSize,
    BrushColor,
    BrushShape,
    Layers,
}

impl ToolboxItem {
    /// The characters of the item's name.
    pub open spec fn spec_name(self) -> Seq<char> {
        match self {
            ToolboxItem::Panel => "Panel"@,
            ToolboxItem::Logo => "Logo"@,
            ToolboxItem::Clear => "Clear"@,
            ToolboxItem::Orientation => "Orientation"@,
            ToolboxItem::Refresh => "Refresh"@,
            ToolboxItem::Touch => "Touch"@,
            ToolboxItem::New => "New"@,
            ToolboxItem::Open => "Open"@,
            ToolboxItem::Save => "Save"@,
            ToolboxItem::Delete => "Delete"@,
            ToolboxItem::Undo => "Undo"@,
            ToolboxItem::Redo => "Redo"@,
            ToolboxItem::BrushType => "BrushType"@,
            ToolboxItem::BrushSize => "BrushSize"@,
            ToolboxItem::BrushColor => "BrushColor"@,
            ToolboxItem::BrushShape => "BrushShape"@,
            ToolboxItem::Layers => "Layers"@,
        }
    }

    /// Whether the item is made of several widgets: the drop-down menus are.
    pub open spec fn is_compound(self) -> bool {
        self is BrushType || self is BrushSize || self is BrushColor || self is BrushShape
            || self is Layers
    }

    /// Whether the item is one of the buttons in the grid.
    pub open spec fn is_button(self) -> bool {
        !self.is_compound() && !(self is Panel) && !(self is Logo)
    }

    /// The image on a button, given whether finger input is on.
    pub open spec fn spec_icon(self, touch_active: bool) -> Icon
        recommends
            self.is_button(),
    {
        match self {
            ToolboxItem::Clear => Icon::Clear,
            ToolboxItem::Orientation => Icon::Orientation,
            ToolboxItem::Refresh => Icon::Refresh,
            ToolboxItem::Touch => spec_touch_image(touch_active),
            ToolboxItem::New => Icon::New,
            ToolboxItem::Open => Icon::Open,
            ToolboxItem::Save => Icon::Save,
            ToolboxItem::Delete => Icon::Delete,
            ToolboxItem::Redo => Icon::Redo,
            _ => Icon::Undo,
        }
    }

    /// What a click on a button sets off, if anything.
    pub open spec fn spec_onclick(self) -> Option<ClickHandler> {
        match self {
            ToolboxItem::Refresh => Some(ClickHandler::RefreshTapped),
            ToolboxItem::Touch => Some(ClickHandler::TouchToggle),
            _ => None,
        }
    }

    /// Whether `w` is the widget of this item, at `col` and `row` of the grid
    /// if it is a button.
    pub open spec fn creates(self, w: Widget, touch_active: bool, col: u16, row: u16) -> bool
        recommends
            !self.is_compound(),
    {
        match self {
            ToolboxItem::Panel => w == spec_panel(),
            ToolboxItem::Logo => is_logo(w),
            _ => w == spec_button(self.spec_icon(touch_active), self.spec_onclick(), col, row),
        }
    }

    /// Gets the display name of an element.
    pub fn name(self) -> (name: String)
        ensures
            name@ == self.spec_name(),
    {
        match self {
            ToolboxItem::Panel => "Panel".to_owned(),
            ToolboxItem::Logo => "Logo".to_owned(),
            ToolboxItem::Clear => "Clear".to_owned(),
            ToolboxItem::Orientation => "Orientation".to_owned(),
            ToolboxItem::Refresh => "Refresh".to_owned(),
            ToolboxItem::Touch => "Touch".to_owned(),
            ToolboxItem::New => "New".to_owned(),
            ToolboxItem::Open => "Open".to_owned(),
            ToolboxItem::Save => "Save".to_owned(),
            ToolboxItem::Delete => "Delete".to_owned(),
            ToolboxItem::Undo => "Undo".to_owned(),
            ToolboxItem::Redo => "Redo".to_owned(),
            ToolboxItem::BrushType => "BrushType".to_owned(),
            ToolboxItem::BrushSize => "BrushSize".to_owned(),
            ToolboxItem::BrushColor => "BrushColor".to_owned(),
            ToolboxItem::BrushShape => "BrushShape".to_owned(),
            ToolboxItem::Layers => "Layers".to_owned(),
        }
    }

    /// Whether the item is made of several widgets.
    pub fn compound(self) -> (c: bool)
        ensures
            c == self.is_compound(),
    {
        match self {
            ToolboxItem::BrushType
            | ToolboxItem::BrushSize
            | ToolboxItem::BrushColor
            | ToolboxItem::BrushShape
            | ToolboxItem::Layers => true,
            _ => false,
        }
    }

    /// Create the widget of an item that is a single widget. The panel and
    /// the logo have their own places; a button goes to `col` and `row` of the
    /// grid. The touch toggle shows whether finger input is on.
    pub fn create(self, touch_active: bool, col: u16, row: u16) -> (w: Widget)
        requires
            !self.is_compound(),
            in_grid(col, row),
        ensures
            self.creates(w, touch_active, col, row),
    {
        match self {
            // The containing panel rectangle
            ToolboxItem::Panel => toolbox_panel::create(),
            ToolboxItem::Logo => logo::create(),
            // First row of buttons
            ToolboxItem::Undo => toolbox_buttons::create_undo_button(col, row),
            ToolboxItem::Orientation => toolbox_buttons::create_orientation_cycler(col, row),
            ToolboxItem::Touch => toolbox_buttons::create_touch_toggle(touch_active, col, row),
            ToolboxItem::Refresh => toolbox_buttons::create_refresh_button(col, row),
            ToolboxItem::Clear => toolbox_buttons::create_clear_button(col, row),
            // Second row of buttons
            ToolboxItem::Redo => toolbox_buttons::create_redo_button(col, row),
            ToolboxItem::Save => toolbox_buttons::create_save_button(col, row),
            ToolboxItem::Open => toolbox_buttons::create_open_button(col, row),
            ToolboxItem::New => toolbox_buttons::create_new_button(col, row),
            _ => toolbox_buttons::create_delete_button(col, row),
        }
    }

    /// Create the widgets of an item that is made of several: a drop-down
    /// menu, in row `row` of the menus.
    pub fn create_compound(self, row: u16) -> (widgets: Vec<Widget>)
        requires
            self.is_compound(),
            in_rows(row),
        ensures
            widgets@ == spec_dropdown(row),
    {
        match self {
            ToolboxItem::BrushType => toolbox_dropdowns::create_brush_type_dropdown(row),
            ToolboxItem::BrushSize => toolbox_dropdowns::create_brush_size_dropdown(row),
            ToolboxItem::BrushColor => toolbox_dropdowns::create_brush_color_dropdown(row),
            ToolboxItem::BrushShape => toolbox_dropdowns::create_brush_shape_dropdown(row),
            _ => toolbox_dropdowns::create_layers_dropdown(row),
        }
    }
}

} // verus!
