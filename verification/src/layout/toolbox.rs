//! The toolbox: a panel of buttons and menus that opens over the canvas and
//! closes again.

use super::clear_region;
use super::toolbox_button::{in_grid, lemma_grid_extent};
use super::toolbox_dropdown::{in_rows, lemma_rows_extent, spec_dropdown, DROPDOWN_ELEMENT_COUNT};
use super::toolbox_items::ToolboxItem;
use super::toolbox_panel::get_toolbox_panel_region;
use crate::geometry::Rect;
use crate::text::{part_name, spec_part_name};
use crate::widget::Widget;
use vstd::prelude::*;

verus! {

/// Whether the toolbox is open.
pub struct Toolbox {
    open: bool,
}

/// What is to be done to the scene when the toolbox opens or closes.
pub enum ToolboxChange {
    /// The toolbox opened: add `widgets` under their names, in this order,
    /// then wipe `clear` and draw the scene.
    Shown { widgets: Vec<(String, Widget)>, clear: Rect },
    /// The toolbox closed: remove the widgets called `names`, in this order,
    /// then wipe `clear`, draw the scene, and draw the strokes again that
    /// the toolbox had covered.
    Hidden { names: Vec<String>, clear: Rect },
}

/// The number of rows of buttons.
pub const BUTTON_ROWS: u16 = 2;

/// The number of buttons in a row.
pub const BUTTON_COLUMNS: u16 = 5;

/// The number of drop-down menus.
pub const MENU_ROWS: u16 = 5;

/// The number of widgets that make the open toolbox.
pub const TOOLBOX_WIDGETS: usize = 22;

/// The button at `row` and `col` of the grid.
pub open spec fn spec_button_grid(row: int, col: int) -> ToolboxItem {
    if row == 0 {
        if col == 0 {
            ToolboxItem::Undo
        } else if col == 1 {
            ToolboxItem::Orientation
        } else if col == 2 {
            ToolboxItem::Touch
        } else if col == 3 {
            ToolboxItem::Refresh
        } else {
            ToolboxItem::Clear
        }
    } else {
        if col == 0 {
            ToolboxItem::Redo
        } else if col == 1 {
            ToolboxItem::Save
        } else if col == 2 {
            ToolboxItem::Open
        } else if col == 3 {
            ToolboxItem::New
        } else {
            ToolboxItem::Delete
        }
    }
}

/// The menu in row `row`.
pub open spec fn spec_menu(row: int) -> ToolboxItem {
    if row == 0 {
        ToolboxItem::BrushType
    } else if row == 1 {
        ToolboxItem::BrushSize
    } else if row == 2 {
        ToolboxItem::BrushColor
    } else if row == 3 {
        ToolboxItem::BrushShape
    } else {
        ToolboxItem::Layers
    }
}

/// Whether `shown` is the open toolbox: the panel, the logo, the buttons row
/// by row, and the parts of the menus row by row, each under its name.
pub open spec fn is_shown(shown: Seq<(String, Widget)>, touch_active: bool) -> bool {
    &&& shown.len() == TOOLBOX_WIDGETS
    &&& shown[0].0@ == ToolboxItem::Panel.spec_name()
    &&& ToolboxItem::Panel.creates(shown[0].1, touch_active, 0, 0)
    &&& shown[1].0@ == ToolboxItem::Logo.spec_name()
    &&& ToolboxItem::Logo.creates(shown[1].1, touch_active, 0, 0)
    &&& forall|k: int|
        2 <= k < 12 ==> {
            let item = spec_button_grid((k - 2) / 5, (k - 2) % 5);
            &&& (#[trigger] shown[k]).0@ == item.spec_name()
            &&& item.creates(shown[k].1, touch_active, ((k - 2) % 5) as u16, ((k - 2) / 5) as u16)
        }
    &&& forall|k: int|
        12 <= k < 22 ==> {
            let row = (k - 12) / 2;
            let part = (k - 12) % 2;
            &&& (#[trigger] shown[k]).0@ == spec_part_name(spec_menu(row).spec_name(), part as nat)
            &&& shown[k].1 == spec_dropdown(row as u16)[part]
        }
}

/// Whether `names` is what the closing toolbox removes: the logo, the buttons
/// from the last to the first, the parts of the menus, and at last the panel.
pub open spec fn is_hidden(names: Seq<String>) -> bool {
    &&& names.len() == TOOLBOX_WIDGETS
    &&& names[0]@ == ToolboxItem::Logo.spec_name()
    &&& forall|k: int|
        1 <= k < 11 ==> (#[trigger] names[k])@ == spec_button_grid(
            (10 - k) / 5,
            (10 - k) % 5,
        ).spec_name()
    &&& forall|k: int|
        11 <= k < 21 ==> (#[trigger] names[k])@ == spec_part_name(
            spec_menu((k - 11) / 2).spec_name(),
            ((k - 11) % 2) as nat,
        )
    &&& names[21]@ == ToolboxItem::Panel.spec_name()
}

impl Toolbox {
    /// Whether the toolbox is open.
    pub closed spec fn is_open(self) -> bool {
        self.open
    }

    /// A closed toolbox.
    pub fn new() -> (t: Toolbox)
        ensures
            !t.is_open(),
    {
        Toolbox { open: false }
    }
}

/// The button at `row` and `col` of the grid.
pub fn toolbox_button(row: u16, col: u16) -> (item: ToolboxItem)
    requires
        row < BUTTON_ROWS,
        col < BUTTON_COLUMNS,
    ensures
        item == spec_button_grid(row as int, col as int),
        item.is_button(),
{
    if row == 0 {
        match col {
            0 => ToolboxItem::Undo,
            1 => ToolboxItem::Orientation,
            2 => ToolboxItem::Touch,
            3 => ToolboxItem::Refresh,
            _ => ToolboxItem::Clear,
        }
    } else {
        match col {
            0 => ToolboxItem::Redo,
            1 => ToolboxItem::Save,
            2 => ToolboxItem::Open,
            3 => ToolboxItem::New,
            _ => ToolboxItem::Delete,
        }
    }
}

/// The menu in row `row`.
pub fn toolbox_dropdown(row: u16) -> (item: ToolboxItem)
    requires
        row < MENU_ROWS,
    ensures
        item == spec_menu(row as int),
        item.is_compound(),
{
    match row {
        0 => ToolboxItem::BrushType,
        1 => ToolboxItem::BrushSize,
        2 => ToolboxItem::BrushColor,
        3 => ToolboxItem::BrushShape,
        _ => ToolboxItem::Layers,
    }
}

/// Inverts the state of the toolbox and says what is to be done to the scene:
/// what `on_show` gives when it opens, what `on_hide` gives when it closes,
/// and either way the region of the panel to be wiped.
pub fn toggle_toolbox(toolbox: &mut Toolbox, touch_active: bool) -> (change: ToolboxChange)
    ensures
        final(toolbox).is_open() == !old(toolbox).is_open(),
        final(toolbox).is_open() ==> (change matches ToolboxChange::Shown { widgets, clear }
            && is_shown(widgets@, touch_active) && clear == (Rect {
            top: 0,
            left: 1099,
            width: 310,
            height: 460,
        })),
        !final(toolbox).is_open() ==> (change matches ToolboxChange::Hidden { names, clear }
            && is_hidden(names@) && clear == (Rect { top: 0, left: 1099, width: 310, height: 460 })),
{
    toolbox.open = !toolbox.open;
    let region = get_toolbox_panel_region();
    let clear = clear_region(&region);
    if toolbox.open {
        ToolboxChange::Shown { widgets: on_show(touch_active), clear }
    } else {
        ToolboxChange::Hidden { names: on_hide(), clear }
    }
}

/// Returns a `bool` indicating if the toolbox is open or not.
pub fn is_toolbox_open(toolbox: &Toolbox) -> (open: bool)
    ensures
        open == toolbox.is_open(),
{
    toolbox.open
}

/// The widgets of the open toolbox, each with the name under which the scene
/// keeps it, in the order in which they are added.
pub fn on_show(touch_active: bool) -> (shown: Vec<(String, Widget)>)
    ensures
        is_shown(shown@, touch_active),
{
    let mut shown: Vec<(String, Widget)> = Vec::new();
    proof {
        lemma_grid_extent(0, 0);
    }
    // The panel and the logo have their own places, whatever column and row.
    shown.push((ToolboxItem::Panel.name(), ToolboxItem::Panel.create(touch_active, 0, 0)));
    shown.push((ToolboxItem::Logo.name(), ToolboxItem::Logo.create(touch_active, 0, 0)));

    let mut row: u16 = 0;
    while row < BUTTON_ROWS
        invariant
            row <= BUTTON_ROWS,
            shown@.len() == 2 + 5 * row,
            shown@[0].0@ == ToolboxItem::Panel.spec_name(),
            ToolboxItem::Panel.creates(shown@[0].1, touch_active, 0, 0),
            shown@[1].0@ == ToolboxItem::Logo.spec_name(),
            ToolboxItem::Logo.creates(shown@[1].1, touch_active, 0, 0),
            forall|k: int|
                2 <= k < shown@.len() ==> {
                    let item = spec_button_grid((k - 2) / 5, (k - 2) % 5);
                    &&& (#[trigger] shown@[k]).0@ == item.spec_name()
                    &&& item.creates(
                        shown@[k].1,
                        touch_active,
                        ((k - 2) % 5) as u16,
                        ((k - 2) / 5) as u16,
                    )
                },
        decreases BUTTON_ROWS - row,
    {
        let mut col: u16 = 0;
        while col < BUTTON_COLUMNS
            invariant
                row < BUTTON_ROWS,
                col <= BUTTON_COLUMNS,
                shown@.len() == 2 + 5 * row + col,
                shown@[0].0@ == ToolboxItem::Panel.spec_name(),
                ToolboxItem::Panel.creates(shown@[0].1, touch_active, 0, 0),
                shown@[1].0@ == ToolboxItem::Logo.spec_name(),
                ToolboxItem::Logo.creates(shown@[1].1, touch_active, 0, 0),
                forall|k: int|
                    2 <= k < shown@.len() ==> {
                        let item = spec_button_grid((k - 2) / 5, (k - 2) % 5);
                        &&& (#[trigger] shown@[k]).0@ == item.spec_name()
                        &&& item.creates(
                            shown@[k].1,
                            touch_active,
                            ((k - 2) % 5) as u16,
                            ((k - 2) / 5) as u16,
                        )
                    },
            decreases BUTTON_COLUMNS - col,
        {
            let item = toolbox_button(row, col);
            proof {
                lemma_grid_extent(col, row);
            }
            let widget = item.create(touch_active, col, row);
            let ghost k = shown@.len() as int;
            assert((k - 2) / 5 == row && (k - 2) % 5 == col);
            shown.push((item.name(), widget));
            col += 1;
        }
        row += 1;
    }

    row = 0;
    while row < MENU_ROWS
        invariant
            row <= MENU_ROWS,
            shown@.len() == 12 + 2 * row,
            shown@[0].0@ == ToolboxItem::Panel.spec_name(),
            ToolboxItem::Panel.creates(shown@[0].1, touch_active, 0, 0),
            shown@[1].0@ == ToolboxItem::Logo.spec_name(),
            ToolboxItem::Logo.creates(shown@[1].1, touch_active, 0, 0),
            forall|k: int|
                2 <= k < 12 ==> {
                    let item = spec_button_grid((k - 2) / 5, (k - 2) % 5);
                    &&& (#[trigger] shown@[k]).0@ == item.spec_name()
                    &&& item.creates(
                        shown@[k].1,
                        touch_active,
                        ((k - 2) % 5) as u16,
                        ((k - 2) / 5) as u16,
                    )
                },
            forall|k: int|
                12 <= k < shown@.len() ==> {
                    let row = (k - 12) / 2;
                    let part = (k - 12) % 2;
                    &&& (#[trigger] shown@[k]).0@ == spec_part_name(
                        spec_menu(row).spec_name(),
                        part as nat,
                    )
                    &&& shown@[k].1 == spec_dropdown(row as u16)[part]
                },
        decreases MENU_ROWS - row,
    {
        let dropdown = toolbox_dropdown(row);
        let name = dropdown.name();
        proof {
            lemma_rows_extent(row);
        }
        let mut parts = dropdown.create_compound(row);
        // The arrow comes off the end first; the box goes in before it.
        let arrow = parts.pop().unwrap();
        let frame = parts.pop().unwrap();
        let ghost k = shown@.len() as int;
        assert((k - 12) / 2 == row && (k - 12) % 2 == 0);
        assert((k + 1 - 12) / 2 == row && (k + 1 - 12) % 2 == 1);
        shown.push((part_name(name.as_str(), 0), frame));
        shown.push((part_name(name.as_str(), 1), arrow));
        row += 1;
    }
    shown
}

/// The names of the widgets that the closing toolbox takes off the scene, in
/// the order in which they are removed.
pub fn on_hide() -> (names: Vec<String>)
    ensures
        is_hidden(names@),
{
    let mut names: Vec<String> = Vec::new();
    names.push(ToolboxItem::Logo.name());

    let mut row: u16 = BUTTON_ROWS;
    while row > 0
        invariant
            row <= BUTTON_ROWS,
            names@.len() == 1 + 5 * (BUTTON_ROWS - row),
            names@[0]@ == ToolboxItem::Logo.spec_name(),
            forall|k: int|
                1 <= k < names@.len() ==> (#[trigger] names@[k])@ == spec_button_grid(
                    (10 - k) / 5,
                    (10 - k) % 5,
                ).spec_name(),
        decreases row,
    {
        row -= 1;
        let mut col: u16 = BUTTON_COLUMNS;
        while col > 0
            invariant
                row < BUTTON_ROWS,
                col <= BUTTON_COLUMNS,
                names@.len() == 1 + 5 * (BUTTON_ROWS - row - 1) + (BUTTON_COLUMNS - col),
                names@[0]@ == ToolboxItem::Logo.spec_name(),
                forall|k: int|
                    1 <= k < names@.len() ==> (#[trigger] names@[k])@ == spec_button_grid(
                        (10 - k) / 5,
                        (10 - k) % 5,
                    ).spec_name(),
            decreases col,
        {
            col -= 1;
            let ghost k = names@.len() as int;
            assert((10 - k) / 5 == row && (10 - k) % 5 == col);
            names.push(toolbox_button(row, col).name());
        }
    }

    row = 0;
    while row < MENU_ROWS
        invariant
            row <= MENU_ROWS,
            names@.len() == 11 + 2 * row,
            names@[0]@ == ToolboxItem::Logo.spec_name(),
            forall|k: int|
                1 <= k < 11 ==> (#[trigger] names@[k])@ == spec_button_grid(
                    (10 - k) / 5,
                    (10 - k) % 5,
                ).spec_name(),
            forall|k: int|
                11 <= k < names@.len() ==> (#[trigger] names@[k])@ == spec_part_name(
                    spec_menu((k - 11) / 2).spec_name(),
                    ((k - 11) % 2) as nat,
                ),
        decreases MENU_ROWS - row,
    {
        let name = toolbox_dropdown(row).name();
        let mut i: u16 = 0;
        while i < DROPDOWN_ELEMENT_COUNT
            invariant
                row < MENU_ROWS,
                i <= DROPDOWN_ELEMENT_COUNT,
                name@ == spec_menu(row as int).spec_name(),
                names@.len() == 11 + 2 * row + i,
                names@[0]@ == ToolboxItem::Logo.spec_name(),
                forall|k: int|
                    1 <= k < 11 ==> (#[trigger] names@[k])@ == spec_button_grid(
                        (10 - k) / 5,
                        (10 - k) % 5,
                    ).spec_name(),
                forall|k: int|
                    11 <= k < names@.len() ==> (#[trigger] names@[k])@ == spec_part_name(
                        spec_menu((k - 11) / 2).spec_name(),
                        ((k - 11) % 2) as nat,
                    ),
            decreases DROPDOWN_ELEMENT_COUNT - i,
        {
            let ghost k = names@.len() as int;
            assert((k - 11) / 2 == row && (k - 11) % 2 == i);
            names.push(part_name(name.as_str(), i));
            i += 1;
        }
        row += 1;
    }
    names.push(ToolboxItem::Panel.name());
    names
}

/// The turn at which the closing toolbox removes the `k`-th widget that the
/// opening toolbox has shown.
pub open spec fn hidden_index(k: int) -> int {
    if k == 0 {
        21
    } else if k == 1 {
        0
    } else if k < 12 {
        12 - k
    } else {
        k - 1
    }
}

/// Closing takes off the scene exactly what opening has put on it: every
/// widget that was shown is removed under the name it was shown under, each
/// at a turn of its own.
pub proof fn lemma_hide_undoes_show(
    shown: Seq<(String, Widget)>,
    names: Seq<String>,
    touch_active: bool,
    k: int,
    j: int,
)
    requires
        is_shown(shown, touch_active),
        is_hidden(names),
        0 <= k < TOOLBOX_WIDGETS,
        0 <= j < TOOLBOX_WIDGETS,
    ensures
        0 <= hidden_index(k) < TOOLBOX_WIDGETS,
        names[hidden_index(k)]@ == shown[k].0@,
        k != j ==> hidden_index(k) != hidden_index(j),
{
}

} // verus!
