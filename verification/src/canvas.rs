//! Where things go on the canvas.
//!
//! Drawing is a dialogue with the display: a text is measured before it can
//! be centred, and only once it is drawn is it known what region it took, on
//! which the frame around it depends. The functions here are the canvas's
//! side of that dialogue. Each takes what the display has answered so far
//! and says what to draw next, and where.

use crate::geometry::{OptPoint, Point, Rect, Size};
use crate::stroke::Ink;
use crate::{DISPLAY_HEIGHT, DISPLAY_WIDTH};
use vstd::prelude::*;

verus! {

/// The thickness of the frame of a rectangular button.
pub const BUTTON_BORDER: u32 = 5;

/// The thickness of the frame of a drop-down menu.
pub const DROP_DOWN_BORDER: u32 = 3;

/// The thickness of the line that separates the entries of an open menu.
pub const SEPARATOR_WIDTH: u32 = 1;

/// The centre of the display.
pub open spec fn spec_center() -> Point {
    Point { x: (DISPLAY_WIDTH / 2) as i32, y: (DISPLAY_HEIGHT / 2) as i32 }
}

/// A position with its open coordinates filled in from `fill`.
pub open spec fn spec_filled(point: OptPoint, fill: Point) -> Point {
    Point {
        x: match point.x {
            Some(x) => x,
            None => fill.x,
        },
        y: match point.y {
            Some(y) => y,
            None => fill.y,
        },
    }
}

/// Where a text of the extent `measured` begins so that it is centred in
/// every coordinate that `pos` leaves open.
pub open spec fn spec_text_origin(pos: OptPoint, measured: Size) -> Point {
    spec_filled(
        pos,
        Point {
            x: (DISPLAY_WIDTH / 2 - measured.width / 2) as i32,
            y: (DISPLAY_HEIGHT / 2 - measured.height / 2) as i32,
        },
    )
}

/// Fills in the open coordinates of a position with the centre of the
/// display.
pub fn centered_point(point: OptPoint) -> (p: Point)
    ensures
        p == spec_filled(point, spec_center()),
{
    Point {
        x: match point.x {
            Some(x) => x,
            // Center horizontally
            None => DISPLAY_WIDTH as i32 / 2,
        },
        y: match point.y {
            Some(y) => y,
            // Center vertically
            None => DISPLAY_HEIGHT as i32 / 2,
        },
    }
}

/// Whether a text at `pos` has to be measured before it can be drawn: it has
/// if a coordinate is open, since centring needs the text's extent.
pub fn needs_measuring(pos: OptPoint) -> (needed: bool)
    ensures
        needed == (pos.x is None || pos.y is None),
{
    pos.x.is_none() || pos.y.is_none()
}

/// Where to draw a text that was asked for at `pos` and measures
/// `measured`: at `pos`, with each open coordinate chosen so that the text
/// is centred on the display in that direction.
pub fn text_origin(pos: OptPoint, measured: Size) -> (origin: Point)
    requires
        measured.width <= i32::MAX,
        measured.height <= i32::MAX,
    ensures
        origin == spec_text_origin(pos, measured),
{
    Point {
        x: match pos.x {
            Some(x) => x,
            None => DISPLAY_WIDTH as i32 / 2 - measured.width as i32 / 2,
        },
        y: match pos.y {
            Some(y) => y,
            None => DISPLAY_HEIGHT as i32 / 2 - measured.height as i32 / 2,
        },
    }
}

/// The ink of a text: black unless another is asked for.
pub fn text_ink(color: Option<Ink>) -> (ink: Ink)
    ensures
        color is None ==> ink == Ink::Black,
        color is Some ==> ink == color->0,
{
    match color {
        Some(ink) => ink,
        None => Ink::Black,
    }
}

/// A straight line to draw, in black.
#[derive(Copy, Clone, PartialEq, Eq, Debug, Structural)]
pub struct Line {
    pub from: Point,
    pub to: Point,
    pub width: u32,
}

/// A frame to draw: its corner, its extent, the thickness of its border, and
/// the region it takes.
#[derive(Copy, Clone, PartialEq, Eq, Debug, Structural)]
pub struct Frame {
    pub at: Point,
    pub size: Size,
    pub border_px: u32,
    pub region: Rect,
}

impl Frame {
    /// The frame's region is the one its corner and extent describe.
    pub open spec fn wf(self) -> bool {
        &&& self.at.x >= 0
        &&& self.at.y >= 0
        &&& self.region == (Rect {
            top: self.at.y as u32,
            left: self.at.x as u32,
            width: self.size.width,
            height: self.size.height,
        })
    }
}

/// The frame of the extent `size` at `pos`, with open coordinates at the
/// centre of the display.
pub fn draw_rect(pos: OptPoint, size: Size, border_px: u32) -> (frame: Frame)
    requires
        spec_filled(pos, spec_center()).x >= 0,
        spec_filled(pos, spec_center()).y >= 0,
    ensures
        frame.wf(),
        frame.at == spec_filled(pos, spec_center()),
        frame.size == size,
        frame.border_px == border_px,
{
    let at = centered_point(pos);
    Frame { at, size, border_px, region: Rect::from(at, size) }
}

/// Whether a round button can be put around a text that took `text`: the
/// text's centre must be a representable position.
pub open spec fn round_button_fits(text: Rect) -> bool {
    &&& text.left + text.width / 2 <= i32::MAX
    &&& text.top + text.height / 2 <= i32::MAX
}

/// Whether a round button can be put around a text that took `text`.
pub fn check_round_button(text: &Rect) -> (ok: bool)
    ensures
        ok == round_button_fits(*text),
{
    text.left as u64 + (text.width / 2) as u64 <= i32::MAX as u64 && text.top as u64 + (text.height
        / 2) as u64 <= i32::MAX as u64
}

/// The circle of a round button, around the text that the button shows and
/// that took the region `text`: centred on the text, with the larger of the
/// text's two extents for its radius. Returns the centre and the radius.
pub fn round_button(text: &Rect) -> (circle: (Point, u32))
    requires
        round_button_fits(*text),
    ensures
        circle.0.x == text.left + text.width / 2,
        circle.0.y == text.top + text.height / 2,
        circle.1 >= text.width,
        circle.1 >= text.height,
        circle.1 == text.width || circle.1 == text.height,
{
    let center = Point {
        x: (text.left + (text.width / 2)) as i32,
        y: (text.top + (text.height / 2)) as i32,
    };
    let radius = if text.height >= text.width {
        text.height
    } else {
        text.width
    };
    (center, radius)
}

/// Whether a frame can be put around the region `inner` at the distances
/// `hgap` and `vgap`, with `extra` more room on the right: the frame must
/// begin on the display and all its coordinates be representable.
pub open spec fn frame_fits(inner: Rect, vgap: u32, hgap: u32, extra: int) -> bool {
    &&& hgap <= inner.left <= i32::MAX
    &&& vgap <= inner.top <= i32::MAX
    &&& hgap + inner.width + hgap + extra <= u32::MAX
    &&& vgap + inner.height + vgap <= u32::MAX
}

/// The frame at the distances `hgap` and `vgap` around the region `inner`.
pub open spec fn spec_frame_around(inner: Rect, vgap: u32, hgap: u32, extra: int, border: u32) -> Frame {
    Frame {
        at: Point { x: (inner.left - hgap) as i32, y: (inner.top - vgap) as i32 },
        size: Size {
            width: (hgap + inner.width + hgap + extra) as u32,
            height: (vgap + inner.height + vgap) as u32,
        },
        border_px: border,
        region: Rect {
            top: (inner.top - vgap) as u32,
            left: (inner.left - hgap) as u32,
            width: (hgap + inner.width + hgap + extra) as u32,
            height: (vgap + inner.height + vgap) as u32,
        },
    }
}

/// Whether a frame can be put around the region `inner` at the distances
/// `hgap` and `vgap`, with `extra` more room on the right.
pub fn check_frame(inner: &Rect, vgap: u32, hgap: u32, extra: u64) -> (ok: bool)
    requires
        extra <= 2 * u32::MAX,
    ensures
        ok == frame_fits(*inner, vgap, hgap, extra as int),
{
    hgap <= inner.left && inner.left <= i32::MAX as u32 && vgap <= inner.top && inner.top
        <= i32::MAX as u32 && hgap as u64 + inner.width as u64 + hgap as u64 + extra
        <= u32::MAX as u64 && vgap as u64 + inner.height as u64 + vgap as u64 <= u32::MAX as u64
}

/// The frame of a rectangular button, around the text that the button shows
/// and that took the region `text`: `hgap` away from it to the left and
/// right, `vgap` above and below. An outlined button draws it as a border, a
/// filled one fills it.
pub fn rect_button(text: &Rect, vgap: u32, hgap: u32) -> (frame: Frame)
    requires
        frame_fits(*text, vgap, hgap, 0),
    ensures
        frame == spec_frame_around(*text, vgap, hgap, 0, BUTTON_BORDER),
        frame.wf(),
        text.fits() ==> frame.region.encloses(*text),
{
    let at = Point { x: (text.left - hgap) as i32, y: (text.top - vgap) as i32 };
    let size = Size { width: hgap + text.width + hgap, height: vgap + text.height + vgap };
    Frame { at, size, border_px: BUTTON_BORDER, region: Rect::from(at, size) }
}

/// Whether the pixel `(x, y)` hits a box: it does on the box's near edges
/// and inside, and no longer on its far edges.
pub open spec fn spec_hits(x: u16, y: u16, hitbox: Rect) -> bool {
    &&& hitbox.left <= x < hitbox.right()
    &&& hitbox.top <= y < hitbox.bottom()
}

/// Whether a touch at the pixel `(x, y)` hits `hitbox`.
pub fn is_hitting(x: u16, y: u16, hitbox: Rect) -> (hit: bool)
    requires
        hitbox.fits(),
    ensures
        hit == spec_hits(x, y, hitbox),
{
    (x as u32) >= hitbox.left && (x as u32) < (hitbox.left + hitbox.width) && (y as u32)
        >= hitbox.top && (y as u32) < (hitbox.top + hitbox.height)
}

/// A box that is hit is also covered, and an empty box is never hit.
pub proof fn lemma_hit_is_covered(x: u16, y: u16, hitbox: Rect)
    ensures
        spec_hits(x, y, hitbox) ==> hitbox.covers(x as int, y as int),
        hitbox.is_empty() ==> !spec_hits(x, y, hitbox),
{
}

/// What to draw for one entry of a drop-down menu.
#[derive(Copy, Clone, PartialEq, Eq, Debug, Structural)]
pub enum DropItem {
    /// The entry's text, in black, beginning at `at`.
    Text { at: Point },
    /// A line between two entries.
    Separator { from: Point, to: Point, width: u32 },
}

/// A drop-down menu while it is drawn.
///
/// The entries go one below the other. Where each goes depends on the region
/// that the one before it took, so the menu is drawn in turns: `place` says
/// where the next entry goes, and `placed` takes the region that it took.
/// After the last entry, `frame` is the box around them all, and
/// `icon_position` is where the arrow goes.
#[derive(Copy, Clone, PartialEq, Eq, Debug, Structural)]
pub struct DropDown {
    /// The menu's corner.
    pub point: Point,
    pub vgap: u32,
    pub hgap: u32,
    /// The width of the arrow's image.
    pub icon_width: u32,
    /// Where the last entry went.
    pub pos: Point,
    /// The region that the last entry took.
    pub last: Rect,
    /// The region that all the entries took together.
    pub bounds: Rect,
    /// No entry has been placed yet.
    pub first: bool,
}

/// Whether an entry is no entry but stands for a line between entries: the
/// empty text does, and a single dash.
pub open spec fn spec_separator(text: Seq<char>) -> bool {
    text.len() == 0 || text == seq!['-']
}

/// Whether an entry stands for a line between entries.
pub fn is_separator(text: &str) -> (sep: bool)
    ensures
        sep == spec_separator(text@),
{
    if text.is_empty() {
        return true;
    }
    let dash = text.unicode_len() == 1 && text.get_char(0) == '-';
    assert(dash ==> text@ =~= seq!['-']);
    dash
}

impl DropDown {
    /// Where the next entry begins, from left.
    pub open spec fn next_x(self) -> int {
        self.point.x + self.vgap
    }

    /// Where the next entry begins, from above: below the last entry, and
    /// for the first one, `hgap` below the menu's corner.
    pub open spec fn next_y(self) -> int {
        self.point.y + self.pos.y + self.last.height + if self.first {
            self.hgap as int
        } else {
            0
        }
    }

    /// Where a separator ends: it spans the entries so far, the arrow, and
    /// the gap between them.
    pub open spec fn separator_end(self) -> int {
        self.next_x() + self.icon_width + self.hgap + self.bounds.width
    }

    /// Whether the next entry can be placed: its position must be
    /// representable, and for a separator both ends of the line.
    pub open spec fn can_place(self, separator: bool) -> bool {
        &&& i32::MIN <= self.next_x() <= i32::MAX
        &&& i32::MIN <= self.next_y() <= i32::MAX
        &&& separator ==> i32::MIN <= self.next_y() - self.last.height
        &&& separator ==> self.separator_end() <= i32::MAX
    }

    /// What `place` gives for the next entry.
    pub open spec fn spec_item(self, separator: bool) -> DropItem {
        if separator {
            DropItem::Separator {
                from: Point {
                    x: self.next_x() as i32,
                    y: (self.next_y() - self.last.height) as i32,
                },
                to: Point {
                    x: self.separator_end() as i32,
                    y: (self.next_y() - self.last.height) as i32,
                },
                width: SEPARATOR_WIDTH,
            }
        } else {
            DropItem::Text { at: Point { x: self.next_x() as i32, y: self.next_y() as i32 } }
        }
    }

    /// The region that an entry counts for, given the region that drawing it
    /// changed: a separator counts as wide as the entries before it.
    pub open spec fn spec_counted(self, separator: bool, drawn: Rect) -> Rect {
        if separator {
            Rect { width: self.bounds.width, ..drawn }
        } else {
            drawn
        }
    }

    /// The room that the frame leaves for the arrow, to the right of the
    /// entries: the arrow's width and one more gap.
    pub open spec fn arrow_room(self) -> int {
        self.icon_width + self.hgap
    }

    /// Whether the menu's frame can be drawn.
    pub open spec fn can_frame(self) -> bool {
        &&& frame_fits(self.bounds, self.vgap, self.hgap, self.arrow_room())
        &&& self.bounds.right() + self.hgap <= i32::MAX
        &&& self.bounds.right() + self.hgap + self.arrow_room() <= u32::MAX
        &&& self.bounds.bottom() + self.vgap <= u32::MAX
        &&& self.bounds.top - self.vgap + self.last.height / 2 + self.vgap / 2 <= i32::MAX
    }

    /// Whether the next entry can be placed.
    pub fn check_place(&self, separator: bool) -> (ok: bool)
        ensures
            ok == self.can_place(separator),
    {
        let gap: i64 = if self.first {
            self.hgap as i64
        } else {
            0
        };
        let x: i64 = self.point.x as i64 + self.vgap as i64;
        let y: i64 = self.point.y as i64 + self.pos.y as i64 + self.last.height as i64 + gap;
        let line: i64 = y - self.last.height as i64;
        let end: i64 = x + self.icon_width as i64 + self.hgap as i64 + self.bounds.width as i64;
        let low: i64 = i32::MIN as i64;
        let high: i64 = i32::MAX as i64;
        low <= x && x <= high && low <= y && y <= high && (!separator || (low <= line && end
            <= high))
    }

    /// Whether the region that drawing the next entry changed can be taken.
    pub fn check_placed(&self, separator: bool, drawn: Rect) -> (ok: bool)
        ensures
            ok == self.bounds.mergeable(self.spec_counted(separator, drawn)),
    {
        let mut counted = drawn;
        if separator {
            counted.width = self.bounds.width;
        }
        self.bounds.check_mergeable(&counted)
    }

    /// Whether the menu's frame can be drawn.
    pub fn check_frame(&self) -> (ok: bool)
        ensures
            ok == self.can_frame(),
    {
        let room: u64 = self.icon_width as u64 + self.hgap as u64;
        if !check_frame(&self.bounds, self.vgap, self.hgap, room) {
            return false;
        }
        let right: u64 = self.bounds.left as u64 + self.bounds.width as u64;
        let bottom: u64 = self.bounds.top as u64 + self.bounds.height as u64;
        let icon_y: u64 = (self.bounds.top - self.vgap) as u64 + (self.last.height / 2) as u64 + (
        self.vgap / 2) as u64;
        right + self.hgap as u64 <= i32::MAX as u64 && right + self.hgap as u64 + room
            <= u32::MAX as u64 && bottom + self.vgap as u64 <= u32::MAX as u64 && icon_y
            <= i32::MAX as u64
    }

    /// A menu at `point` of which nothing is drawn yet.
    pub fn new(point: Point, vgap: u32, hgap: u32, icon_width: u32) -> (menu: DropDown)
        ensures
            menu == (DropDown {
                point,
                vgap,
                hgap,
                icon_width,
                pos: Point { x: 0, y: 0 },
                last: Rect { top: 0, left: 0, width: 0, height: 0 },
                bounds: Rect { top: 0, left: 0, width: 0, height: 0 },
                first: true,
            }),
    {
        DropDown {
            point,
            vgap,
            hgap,
            icon_width,
            pos: Point { x: 0, y: 0 },
            last: Rect { top: 0, left: 0, width: 0, height: 0 },
            bounds: Rect { top: 0, left: 0, width: 0, height: 0 },
            first: true,
        }
    }

    /// Says what to draw for the next entry, and where.
    pub fn place(&mut self, separator: bool) -> (item: DropItem)
        requires
            old(self).can_place(separator),
        ensures
            item == old(self).spec_item(separator),
            *final(self) == (DropDown {
                pos: Point { x: old(self).next_x() as i32, y: old(self).next_y() as i32 },
                ..*old(self)
            }),
    {
        let gap: i64 = if self.first {
            self.hgap as i64
        } else {
            0
        };
        let x: i64 = self.point.x as i64 + self.vgap as i64;
        let y: i64 = self.point.y as i64 + self.pos.y as i64 + self.last.height as i64 + gap;
        self.pos = Point { x: x as i32, y: y as i32 };
        if separator {
            let line_y: i64 = y - self.last.height as i64;
            let end: i64 = x + self.icon_width as i64 + self.hgap as i64 + self.bounds.width as i64;
            DropItem::Separator {
                from: Point { x: x as i32, y: line_y as i32 },
                to: Point { x: end as i32, y: line_y as i32 },
                width: SEPARATOR_WIDTH,
            }
        } else {
            DropItem::Text { at: self.pos }
        }
    }

    /// Takes the region that drawing the entry changed.
    pub fn placed(&mut self, separator: bool, drawn: Rect)
        requires
            old(self).bounds.mergeable(old(self).spec_counted(separator, drawn)),
        ensures
            *final(self) == (DropDown {
                last: old(self).spec_counted(separator, drawn),
                bounds: old(self).bounds.merged(old(self).spec_counted(separator, drawn)),
                first: false,
                ..*old(self)
            }),
    {
        let mut counted = drawn;
        if separator {
            counted.width = self.bounds.width;
        }
        self.last = counted;
        self.bounds = self.bounds.merge_rect(&counted);
        self.first = false;
    }

    /// The frame around the menu: around the entries, with room for the
    /// arrow to their right. Its region is what a touch has to hit.
    pub fn frame(&self) -> (frame: Frame)
        requires
            self.can_frame(),
        ensures
            frame == spec_frame_around(
                self.bounds,
                self.vgap,
                self.hgap,
                self.arrow_room(),
                DROP_DOWN_BORDER,
            ),
            frame.wf(),
            frame.region.fits(),
            frame.region.encloses(self.bounds),
    {
        let at = Point {
            x: (self.bounds.left - self.hgap) as i32,
            y: (self.bounds.top - self.vgap) as i32,
        };
        let size = Size {
            width: self.hgap + self.bounds.width + self.hgap + self.icon_width + self.hgap,
            height: self.vgap + self.bounds.height + self.vgap,
        };
        Frame { at, size, border_px: DROP_DOWN_BORDER, region: Rect::from(at, size) }
    }

    /// Where the arrow goes: against the frame's right edge, one gap inside
    /// it, and half way down the last entry.
    pub fn icon_position(&self) -> (at: Point)
        requires
            self.can_frame(),
        ensures
            at.x == self.bounds.right() + self.hgap,
            at.y == self.bounds.top - self.vgap + self.last.height / 2 + self.vgap / 2,
            at.x + self.arrow_room() == spec_frame_around(
                self.bounds,
                self.vgap,
                self.hgap,
                self.arrow_room(),
                DROP_DOWN_BORDER,
            ).region.right(),
    {
        let hit = self.frame().region;
        Point {
            x: ((hit.left + hit.width) - (self.icon_width + self.hgap)) as i32,
            y: (hit.top + (self.last.height / 2) + (self.vgap / 2)) as i32,
        }
    }
}

/// The entries that are drawn of a menu with the entries `options`, by
/// their index: all of them while the menu is open, and else the selected
/// one alone. Each comes with whether it is drawn as a separator; the
/// selected entry of a closed menu is always drawn as text.
pub fn draw_drop_down(options: &Vec<String>, selected: usize, is_open: bool) -> (entries: Vec<
    (usize, bool),
>)
    requires
        !is_open ==> selected < options@.len(),
    ensures
        is_open ==> entries@.len() == options@.len() && forall|i: int|
            0 <= i < options@.len() ==> #[trigger] entries@[i] == (
                i as usize,
                spec_separator(options@[i]@),
            ),
        !is_open ==> entries@ == seq![(selected, false)],
{
    let mut entries: Vec<(usize, bool)> = Vec::new();
    if is_open {
        let mut i: usize = 0;
        while i < options.len()
            invariant
                i <= options@.len(),
                entries@.len() == i,
                forall|k: int|
                    0 <= k < i ==> #[trigger] entries@[k] == (
                        k as usize,
                        spec_separator(options@[k]@),
                    ),
            decreases options@.len() - i,
        {
            let sep = is_separator(options[i].as_str());
            entries.push((i, sep));
            i += 1;
        }
    } else {
        entries.push((selected, false));
        assert(entries@ =~= seq![(selected, false)]);
    }
    entries
}

/// The first entry of a menu goes one gap inside the menu's corner, in both
/// directions, whether the menu is open or closed.
pub proof fn lemma_first_entry(point: Point, vgap: u32, hgap: u32, icon_width: u32, menu: DropDown)
    requires
        menu == (DropDown {
            point,
            vgap,
            hgap,
            icon_width,
            pos: Point { x: 0, y: 0 },
            last: Rect { top: 0, left: 0, width: 0, height: 0 },
            bounds: Rect { top: 0, left: 0, width: 0, height: 0 },
            first: true,
        }),
    ensures
        menu.next_x() == point.x + vgap,
        menu.next_y() == point.y + hgap,
{
}

/// The arrow lies inside the menu's frame, and to the right of every entry.
pub proof fn lemma_arrow_in_frame(menu: DropDown)
    requires
        menu.can_frame(),
    ensures
        ({
            let frame = spec_frame_around(
                menu.bounds,
                menu.vgap,
                menu.hgap,
                menu.arrow_room(),
                DROP_DOWN_BORDER,
            );
            let x = menu.bounds.right() + menu.hgap;
            &&& frame.region.left <= x
            &&& x + menu.icon_width <= frame.region.right()
            &&& menu.bounds.right() <= x
        }),
{
}

} // verus!
