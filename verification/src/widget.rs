//! What a widget is, before it is handed to the toolkit that draws it.

use crate::geometry::{Point, Size};
use crate::stroke::Ink;
use vstd::prelude::*;

verus! {

/// The images that ship with the application.
#[derive(Copy, Clone, PartialEq, Eq, Debug, Structural)]
pub enum Icon {
    Clear,
    Delete,
    Down,
    Exit,
    KebabOff,
    KebabOn,
    New,
    Open,
    Orientation,
    Redo,
    Refresh,
    Save,
    TouchOff,
    TouchOn,
    Undo,
}

/// Whether, and how, the display is refreshed once a widget is drawn.
#[derive(Copy, Clone, PartialEq, Eq, Debug, Structural)]
pub enum RefreshPolicy {
    NoRefresh,
    Refresh,
    RefreshAndWait,
}

/// What a click on a widget sets off.
#[derive(Copy, Clone, PartialEq, Eq, Debug, Structural)]
pub enum ClickHandler {
    /// Opens the toolbox, or closes it.
    ToggleToolbox,
    /// Refreshes the whole display.
    RefreshTapped,
    /// Switches finger input on or off, from the toolbox.
    TouchToggle,
    /// Switches finger input on or off, from the button that stands on its
    /// own.
    TouchSwitch,
}

/// What a widget shows.
#[derive(Clone, Debug)]
pub enum WidgetKind {
    Text { text: String, scale: u32, foreground: Ink, border_px: u32 },
    Image { img: Icon },
    Region { size: Size, border_color: Ink, border_px: u32 },
    Unspecified,
}

/// A widget: what it shows, where, and what a click on it does.
#[derive(Clone, Debug)]
pub struct Widget {
    pub position: Point,
    pub refresh: RefreshPolicy,
    pub onclick: Option<ClickHandler>,
    pub inner: WidgetKind,
}

impl Icon {
    /// The characters of the name of the file that holds the image.
    pub open spec fn spec_file_name(self) -> Seq<char> {
        match self {
            Icon::Clear => "clear.png"@,
            Icon::Delete => "delete.png"@,
            Icon::Down => "down.png"@,
            Icon::Exit => "exit.png"@,
            Icon::KebabOff => "kebab-off.png"@,
            Icon::KebabOn => "kebab-on.png"@,
            Icon::New => "new.png"@,
            Icon::Open => "open.png"@,
            Icon::Orientation => "orientation.png"@,
            Icon::Redo => "redo.png"@,
            Icon::Refresh => "refresh.png"@,
            Icon::Save => "save.png"@,
            Icon::TouchOff => "touch-off.png"@,
            Icon::TouchOn => "touch-on.png"@,
            Icon::Undo => "undo.png"@,
        }
    }

    /// The name of the file that holds the image, within the assets.
    pub fn file_name(self) -> (name: &'static str)
        ensures
            name@ == self.spec_file_name(),
    {
        match self {
            Icon::Clear => "clear.png",
            Icon::Delete => "delete.png",
            Icon::Down => "down.png",
            Icon::Exit => "exit.png",
            Icon::KebabOff => "kebab-off.png",
            Icon::KebabOn => "kebab-on.png",
            Icon::New => "new.png",
            Icon::Open => "open.png",
            Icon::Orientation => "orientation.png",
            Icon::Redo => "redo.png",
            Icon::Refresh => "refresh.png",
            Icon::Save => "save.png",
            Icon::TouchOff => "touch-off.png",
            Icon::TouchOn => "touch-on.png",
            Icon::Undo => "undo.png",
        }
    }
}

impl WidgetKind {
    /// Whether this is a text with the given characters and settings.
    pub open spec fn is_text(self, chars: Seq<char>, size: u32, ink: Ink, border: u32) -> bool {
        &&& self matches WidgetKind::Text { text, scale, foreground, border_px }
        &&& text@ == chars
        &&& scale == size
        &&& foreground == ink
        &&& border_px == border
    }
}

impl Widget {
    /// A widget that shows `img` at `position`.
    pub open spec fn spec_image(
        position: Point,
        refresh: RefreshPolicy,
        onclick: Option<ClickHandler>,
        img: Icon,
    ) -> Widget {
        Widget { position, refresh, onclick, inner: WidgetKind::Image { img } }
    }

    /// A widget that shows a bordered, black region at `position`.
    pub open spec fn spec_region(
        position: Point,
        refresh: RefreshPolicy,
        size: Size,
        border_px: u32,
    ) -> Widget {
        Widget {
            position,
            refresh,
            onclick: None,
            inner: WidgetKind::Region { size, border_color: Ink::Black, border_px },
        }
    }
}

} // verus!
