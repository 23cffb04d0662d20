//! The five drop-down menus of the toolbox.

use super::toolbox_dropdown::{create_toolbox_dropdown, in_rows, spec_dropdown};
use crate::widget::{Widget, WidgetKind};
use vstd::prelude::*;

verus! {

/// The menu of brush types.
pub fn create_brush_type_dropdown(row: u16) -> (widgets: Vec<Widget>)
    requires
        in_rows(row),
    ensures
        widgets@ == spec_dropdown(row),
{
    create_toolbox_dropdown(WidgetKind::Unspecified, None, row)
}

/// The menu of brush sizes.
pub fn create_brush_size_dropdown(row: u16) -> (widgets: Vec<Widget>)
    requires
        in_rows(row),
    ensures
        widgets@ == spec_dropdown(row),
{
    create_toolbox_dropdown(WidgetKind::Unspecified, None, row)
}

/// The menu of brush colours.
pub fn create_brush_color_dropdown(row: u16) -> (widgets: Vec<Widget>)
    requires
        in_rows(row),
    ensures
        widgets@ == spec_dropdown(row),
{
    create_toolbox_dropdown(WidgetKind::Unspecified, None, row)
}

/// The menu of brush shapes.
pub fn create_brush_shape_dropdown(row: u16) -> (widgets: Vec<Widget>)
    requires
        in_rows(row),
    ensures
        widgets@ == spec_dropdown(row),
{
    create_toolbox_dropdown(WidgetKind::Unspecified, None, row)
}

/// The menu of layers.
pub fn create_layers_dropdown(row: u16) -> (widgets: Vec<Widget>)
    requires
        in_rows(row),
    ensures
        widgets@ == spec_dropdown(row),
{
    create_toolbox_dropdown(WidgetKind::Unspecified, None, row)
}

} // verus!
