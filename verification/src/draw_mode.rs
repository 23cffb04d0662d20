//! What the pen does to the canvas, and how wide.

use crate::text::{decimal, joined, spec_decimal};
use vstd::prelude::*;

verus! {

/// The pen either draws or erases; either way it carries the stroke's size.
#[derive(Copy, Clone, PartialEq, Eq, Debug, Structural)]
pub enum DrawMode {
    Draw(u32),
    Erase(u32),
}

/// The smallest brush size that can be chosen.
pub const MIN_BRUSH_SIZE: u32 = 1;

/// The largest brush size that can be chosen.
pub const MAX_BRUSH_SIZE: u32 = 99;

impl DrawMode {
    /// The stroke size the mode carries.
    pub open spec fn spec_size(self) -> u32 {
        match self {
            DrawMode::Draw(s) => s,
            DrawMode::Erase(s) => s,
        }
    }

    /// The same kind of mode with another size.
    pub open spec fn with_size(self, new_size: u32) -> DrawMode {
        match self {
            DrawMode::Draw(_) => DrawMode::Draw(new_size),
            DrawMode::Erase(_) => DrawMode::Erase(new_size),
        }
    }

    /// The other kind of mode with the same size.
    pub open spec fn toggled(self) -> DrawMode {
        match self {
            DrawMode::Draw(s) => DrawMode::Erase(s),
            DrawMode::Erase(s) => DrawMode::Draw(s),
        }
    }

    /// The size after a change by `delta`, kept within the brush limits.
    pub open spec fn resized(self, delta: int) -> int {
        let proposed = self.spec_size() + delta;
        if proposed < MIN_BRUSH_SIZE {
            MIN_BRUSH_SIZE as int
        } else if proposed > MAX_BRUSH_SIZE {
            MAX_BRUSH_SIZE as int
        } else {
            proposed
        }
    }

    /// The mode written out: its kind, and its size in brackets.
    pub open spec fn spec_name(self) -> Seq<char> {
        match self {
            DrawMode::Draw(s) => "Draw("@ + spec_decimal(s as nat) + ")"@,
            DrawMode::Erase(s) => "Erase("@ + spec_decimal(s as nat) + ")"@,
        }
    }

    /// The mode written out, as `Draw(2)` or `Erase(2)`.
    pub fn name(self) -> (name: String)
        ensures
            name@ == self.spec_name(),
    {
        let (kind, size) = match self {
            DrawMode::Draw(s) => ("Draw(", s),
            DrawMode::Erase(s) => ("Erase(", s),
        };
        let digits = decimal(size as u64);
        let head = joined(kind, digits.as_str());
        joined(head.as_str(), ")")
    }

    /// Keeps the kind of mode and replaces the size.
    pub fn set_size(self, new_size: u32) -> (mode: DrawMode)
        ensures
            mode == self.with_size(new_size),
    {
        match self {
            DrawMode::Draw(_) => DrawMode::Draw(new_size),
            DrawMode::Erase(_) => DrawMode::Erase(new_size),
        }
    }

    /// The stroke size.
    pub fn get_size(self) -> (size: u32)
        ensures
            size == self.spec_size(),
    {
        match self {
            DrawMode::Draw(s) => s,
            DrawMode::Erase(s) => s,
        }
    }

    /// The name of the colour the mode leaves on the canvas: drawing is
    /// black, erasing is white.
    pub fn color_as_string(self) -> (name: String)
        ensures
            self is Draw ==> name@ == "Black"@,
            self is Erase ==> name@ == "White"@,
    {
        match self {
            DrawMode::Draw(_) => "Black".to_owned(),
            DrawMode::Erase(_) => "White".to_owned(),
        }
    }

    /// Changes the brush size by `delta` and keeps it between `MIN_BRUSH_SIZE`
    /// and `MAX_BRUSH_SIZE`. Returns `None` where the size stays as it is, so
    /// that nothing is redrawn, and else the mode with the new size.
    pub fn change_brush_width(self, delta: i32) -> (changed: Option<DrawMode>)
        ensures
            self.resized(delta as int) == self.spec_size() ==> changed is None,
            self.resized(delta as int) != self.spec_size() ==> changed == Some(
                self.with_size(self.resized(delta as int) as u32),
            ),
    {
        let current: i64 = self.get_size() as i64;
        let proposed: i64 = current + delta as i64;
        let new_size: i64 = if proposed < 1 {
            1
        } else if proposed > 99 {
            99
        } else {
            proposed
        };
        if new_size == current {
            return None;
        }
        Some(self.set_size(new_size as u32))
    }
}

/// Toggling the eraser twice gives the mode back, and never changes the size.
pub proof fn lemma_toggle_twice(mode: DrawMode)
    ensures
        mode.toggled().toggled() == mode,
        mode.toggled().spec_size() == mode.spec_size(),
{
}

/// A changed brush size always lies within the limits, whatever the size was
/// before and however large the change.
pub proof fn lemma_resized_in_limits(mode: DrawMode, delta: int)
    ensures
        MIN_BRUSH_SIZE <= mode.resized(delta) <= MAX_BRUSH_SIZE,
{
}

} // verus!
