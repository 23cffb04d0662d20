//! Points, sizes and display regions, in whole pixels.
//!
//! A `Rect` here holds the same four numbers as the display driver's update
//! rectangle. Regions are combined and probed by the driver library itself, so
//! that what this crate asks to be refreshed is what the driver would compute;
//! the contracts of those calls are stated over the spec functions below.

use libremarkable::framebuffer::cgmath::Point2;
use libremarkable::framebuffer::common::mxcfb_rect;
use vstd::prelude::*;

verus! {

/// A position on the display. `x` grows to the right, `y` downwards.
#[derive(Clone, Copy, Debug, PartialEq, Eq, Structural)]
pub struct Point {
    pub x: i32,
    pub y: i32,
}

/// A position of which either coordinate may be left open. An open coordinate
/// is filled in by whoever places the thing, usually by centring it.
#[derive(Clone, Copy, Debug, PartialEq, Eq)]
pub struct OptPoint {
    pub x: Option<i32>,
    pub y: Option<i32>,
}

/// An extent in pixels.
#[derive(Clone, Copy, Debug, PartialEq, Eq, Structural)]
pub struct Size {
    pub width: u32,
    pub height: u32,
}

/// A region of the display.
#[derive(Clone, Copy, Debug, PartialEq, Eq, Structural)]
pub struct Rect {
    pub top: u32,
    pub left: u32,
    pub width: u32,
    pub height: u32,
}

/// The coordinate that marks a region holding nothing.
pub const INVALID_EDGE: u32 = 9999;

impl OptPoint {
    /// A position with both coordinates given.
    pub fn at(x: i32, y: i32) -> (p: OptPoint)
        ensures
            p.x == Some(x),
            p.y == Some(y),
    {
        OptPoint { x: Some(x), y: Some(y) }
    }
}

impl Rect {
    /// The region that stands for "nothing": no extent, parked at `INVALID_EDGE`.
    pub open spec fn spec_invalid() -> Rect {
        Rect { top: INVALID_EDGE, left: INVALID_EDGE, width: 0, height: 0 }
    }

    /// A region without pixels: no width or no height.
    pub open spec fn is_empty(self) -> bool {
        self.height == 0 || self.width == 0
    }

    /// The first column to the right of the region.
    pub open spec fn right(self) -> int {
        self.left + self.width
    }

    /// The first row below the region.
    pub open spec fn bottom(self) -> int {
        self.top + self.height
    }

    /// Both far edges are representable coordinates.
    pub open spec fn fits(self) -> bool {
        self.right() <= u32::MAX && self.bottom() <= u32::MAX
    }

    /// Whether `(x, y)` lies in the region. A point on the far edges counts as
    /// inside, as it does for the driver.
    pub open spec fn covers(self, x: int, y: int) -> bool {
        self.left <= x <= self.right() && self.top <= y <= self.bottom()
    }

    /// Whether every point of `other` lies in `self`.
    pub open spec fn encloses(self, other: Rect) -> bool {
        &&& self.left <= other.left
        &&& self.top <= other.top
        &&& other.right() <= self.right()
        &&& other.bottom() <= self.bottom()
    }

    /// The bounding box of two regions. An empty region adds nothing; two empty
    /// regions give the invalid region.
    pub open spec fn merged(self, other: Rect) -> Rect {
        if self.is_empty() && other.is_empty() {
            Rect::spec_invalid()
        } else if self.is_empty() {
            other
        } else if other.is_empty() {
            self
        } else {
            let top = if self.top <= other.top { self.top } else { other.top };
            let left = if self.left <= other.left { self.left } else { other.left };
            let bottom = if self.bottom() >= other.bottom() { self.bottom() } else { other.bottom() };
            let right = if self.right() >= other.right() { self.right() } else { other.right() };
            Rect { top, left, width: (right - left) as u32, height: (bottom - top) as u32 }
        }
    }

    /// Whether `merge_rect` may be called on the pair: where both regions hold
    /// pixels their far edges are added up, and must be representable.
    pub open spec fn mergeable(self, other: Rect) -> bool {
        !self.is_empty() && !other.is_empty() ==> self.fits() && other.fits()
    }

    /// Whether both far edges are representable coordinates.
    pub fn check_fits(&self) -> (ok: bool)
        ensures
            ok == self.fits(),
    {
        self.left as u64 + self.width as u64 <= u32::MAX as u64 && self.top as u64
            + self.height as u64 <= u32::MAX as u64
    }

    /// Whether `merge_rect` may be called on the pair.
    pub fn check_mergeable(&self, other: &Rect) -> (ok: bool)
        ensures
            ok == self.mergeable(*other),
    {
        let self_is_empty = self.height == 0 || self.width == 0;
        let other_is_empty = other.height == 0 || other.width == 0;
        self_is_empty || other_is_empty || (self.check_fits() && other.check_fits())
    }

    /// A region from its corner and extent.
    pub fn from(pos: Point, size: Size) -> (r: Rect)
        requires
            pos.x >= 0,
            pos.y >= 0,
        ensures
            r.left == pos.x,
            r.top == pos.y,
            r.width == size.width,
            r.height == size.height,
    {
        Rect { top: pos.y as u32, left: pos.x as u32, width: size.width, height: size.height }
    }

    /// The region's upper left corner, as unsigned coordinates `(x, y)`.
    pub fn top_left(&self) -> (p: (u32, u32))
        ensures
            p.0 == self.left,
            p.1 == self.top,
    {
        (self.left, self.top)
    }

    /// The region's extent.
    pub fn size(&self) -> (s: Size)
        ensures
            s.width == self.width,
            s.height == self.height,
    {
        Size { width: self.width, height: self.height }
    }

    /// The region that stands for "nothing yet": the start of every
    /// accumulation of dirty regions.
    pub fn invalid() -> (r: Rect)
        ensures
            r == Rect::spec_invalid(),
            r.is_empty(),
    {
        driver_invalid()
    }

    /// Whether the pixel `(x, y)` lies in the region, far edges included.
    pub fn contains_point(&self, x: u32, y: u32) -> (inside: bool)
        requires
            self.fits(),
        ensures
            inside == self.covers(x as int, y as int),
    {
        driver_contains_point(self, x, y)
    }

    /// The smallest region that holds both `self` and `rect`, where an empty
    /// region counts for nothing.
    pub fn merge_rect(&self, rect: &Rect) -> (m: Rect)
        requires
            self.mergeable(*rect),
        ensures
            m == self.merged(*rect),
            !self.is_empty() && !rect.is_empty() ==> m.fits() && m.encloses(*self) && m.encloses(
                *rect,
            ) && !m.is_empty(),
    {
        driver_merge(self, rect)
    }
}

/// The bounding box of any number of regions: they are merged one after the
/// other, beginning with the invalid region.
pub open spec fn merged_all(rects: Seq<Rect>) -> Rect
    decreases rects.len(),
{
    if rects.len() == 0 {
        Rect::spec_invalid()
    } else {
        merged_all(rects.drop_last()).merged(rects.last())
    }
}

/// The region that a number of drawing steps have changed together, from
/// the regions that each has changed.
pub fn merge_all(rects: &Vec<Rect>) -> (m: Rect)
    requires
        forall|i: int| 0 <= i < rects@.len() ==> (#[trigger] rects@[i]).fits(),
    ensures
        m == merged_all(rects@),
        m.fits(),
{
    let mut m = Rect::invalid();
    let mut i: usize = 0;
    assert(rects@.subrange(0, 0) =~= Seq::<Rect>::empty());
    while i < rects.len()
        invariant
            i <= rects@.len(),
            m == merged_all(rects@.subrange(0, i as int)),
            m.fits(),
            forall|i: int| 0 <= i < rects@.len() ==> (#[trigger] rects@[i]).fits(),
        decreases rects@.len() - i,
    {
        assert(rects@.subrange(0, i + 1).drop_last() =~= rects@.subrange(0, i as int));
        m = m.merge_rect(&rects[i]);
        i += 1;
    }
    assert(rects@.subrange(0, i as int) =~= rects@);
    m
}

/// `mxcfb_rect::invalid` of the driver library: the region at (9999, 9999)
/// with neither width nor height.
#[verifier::external_body]
fn driver_invalid() -> (r: Rect)
    ensures
        r == Rect::spec_invalid(),
{
    let m = mxcfb_rect::invalid();
    Rect { top: m.top, left: m.left, width: m.width, height: m.height }
}

/// `mxcfb_rect::contains_point` of the driver library. It rejects a point that
/// lies before the near edges or beyond `left + width` or `top + height`, and
/// accepts every other; the two sums are computed in `u32`, hence `fits`.
#[verifier::external_body]
fn driver_contains_point(rect: &Rect, x: u32, y: u32) -> (inside: bool)
    requires
        rect.fits(),
    ensures
        inside == rect.covers(x as int, y as int),
{
    let r = mxcfb_rect { top: rect.top, left: rect.left, width: rect.width, height: rect.height };
    r.contains_point(&Point2 { x, y })
}

/// `mxcfb_rect::merge_rect` of the driver library. With both regions empty it
/// gives the invalid region, with one empty the other, and else the box from
/// the lesser near edges to the greater far edges; the far edges are sums in
/// `u32`, hence `mergeable`.
#[verifier::external_body]
fn driver_merge(a: &Rect, b: &Rect) -> (m: Rect)
    requires
        a.mergeable(*b),
    ensures
        m == a.merged(*b),
{
    let lhs = mxcfb_rect { top: a.top, left: a.left, width: a.width, height: a.height };
    let rhs = mxcfb_rect { top: b.top, left: b.left, width: b.width, height: b.height };
    let m = lhs.merge_rect(&rhs);
    Rect { top: m.top, left: m.left, width: m.width, height: m.height }
}

/// Merging is symmetric: the order of the two regions does not matter.
pub proof fn lemma_merge_commutes(a: Rect, b: Rect)
    ensures
        a.merged(b) == b.merged(a),
{
}

/// Merging may be regrouped: three regions give the same box whichever two are
/// merged first.
pub proof fn lemma_merge_associates(a: Rect, b: Rect, c: Rect)
    requires
        a.fits(),
        b.fits(),
        c.fits(),
    ensures
        a.merged(b).merged(c) == a.merged(b.merged(c)),
{
}

/// A region that holds pixels is unchanged by merging it with itself, with an
/// empty region, or with a region it already encloses.
pub proof fn lemma_merge_absorbs(a: Rect, b: Rect)
    requires
        !a.is_empty(),
        a.fits(),
        b.is_empty() || a.encloses(b),
    ensures
        a.merged(b) == a,
        a.merged(a) == a,
{
}

/// The merged region is the least one: whatever encloses both regions encloses
/// their merge, and the merge covers every point that either region covers.
pub proof fn lemma_merge_is_least(a: Rect, b: Rect, outer: Rect, x: int, y: int)
    requires
        !a.is_empty(),
        !b.is_empty(),
        a.fits(),
        b.fits(),
    ensures
        outer.encloses(a) && outer.encloses(b) ==> outer.encloses(a.merged(b)),
        a.covers(x, y) || b.covers(x, y) ==> a.merged(b).covers(x, y),
{
}

/// The box of several regions encloses each of them that holds pixels.
pub proof fn lemma_merged_all_encloses(rects: Seq<Rect>, i: int)
    requires
        forall|k: int| 0 <= k < rects.len() ==> (#[trigger] rects[k]).fits(),
        0 <= i < rects.len(),
        !rects[i].is_empty(),
    ensures
        merged_all(rects).fits(),
        !merged_all(rects).is_empty(),
        merged_all(rects).encloses(rects[i]),
    decreases rects.len(),
{
    lemma_merged_all_fits(rects.drop_last());
    if i < rects.len() - 1 {
        lemma_merged_all_encloses(rects.drop_last(), i);
    }
}

/// The box of regions with representable far edges has representable far
/// edges.
pub proof fn lemma_merged_all_fits(rects: Seq<Rect>)
    requires
        forall|k: int| 0 <= k < rects.len() ==> (#[trigger] rects[k]).fits(),
    ensures
        merged_all(rects).fits(),
    decreases rects.len(),
{
    if rects.len() > 0 {
        lemma_merged_all_fits(rects.drop_last());
    }
}

} // verus!
