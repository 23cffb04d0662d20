//! From pen samples to curve segments.
//!
//! The pen reports a stream of samples, each a position and a pressure. Every
//! three consecutive samples give one curve segment, so a stroke of `n`
//! samples is drawn as `n - 2` overlapping segments, each as soon as its third
//! sample has arrived. The history keeps the samples that later segments
//! still need.
//!
//! Positions pass through untouched: the type `P` is whatever the caller
//! measures in. Widths are exact: they are counted in `WIDTH_UNITS`-ths of a
//! pixel.

use crate::draw_mode::DrawMode;
use std::collections::VecDeque;
use vstd::prelude::*;

verus! {

/// The two inks of the display.
#[derive(Copy, Clone, PartialEq, Eq, Debug, Structural)]
pub enum Ink {
    Black,
    White,
}

/// One reading of the pen on the surface.
#[derive(Copy, Clone, Debug)]
pub struct Sample<P> {
    pub position: P,
    pub pressure: u16,
}

/// One piece of a stroke: a curve from between `newest` and `middle`, bent
/// towards `middle`, to between `middle` and `oldest`.
#[derive(Copy, Clone, Debug)]
pub struct Segment<P> {
    pub newest: Sample<P>,
    pub middle: Sample<P>,
    pub oldest: Sample<P>,
    /// Width where the curve starts, in `WIDTH_UNITS`-ths of a pixel.
    pub start_width: u64,
    /// Width at the control point, in `WIDTH_UNITS`-ths of a pixel.
    pub ctrl_width: u64,
    /// Width where the curve ends, in `WIDTH_UNITS`-ths of a pixel.
    pub end_width: u64,
    /// The number of straight pieces the curve is drawn with.
    pub samples: i32,
    pub ink: Ink,
}

/// A brush: which ink it leaves, and how wide at full pressure.
#[derive(Copy, Clone, PartialEq, Eq, Debug, Structural)]
pub struct Brush {
    pub ink: Ink,
    pub size: u64,
}

/// How many width units make one pixel. A sample's radius is
/// `size * pressure / 4096` pixels, and a width is the sum of two radii.
pub const WIDTH_UNITS: u64 = 4096;

/// The number of straight pieces each segment is drawn with.
pub const SEGMENT_SAMPLES: i32 = 10;

/// The brush size of the pen's rubber end, whatever size is selected.
pub const RUBBER_SIZE: u64 = 50;

/// The widest brush there is: an eraser of the largest size a mode can carry.
pub const MAX_BRUSH: u64 = 12884901885;

/// The number of samples that make one segment.
pub const WINDOW: usize = 3;

impl Brush {
    /// The size is one that a draw mode can give, so that widths can be
    /// computed without overflow.
    pub open spec fn wf(self) -> bool {
        self.size <= MAX_BRUSH
    }
}

impl Ink {
    /// The other ink.
    pub open spec fn spec_flipped(self) -> Ink {
        match self {
            Ink::White => Ink::Black,
            Ink::Black => Ink::White,
        }
    }

    /// The other ink.
    pub fn flipped(self) -> (ink: Ink)
        ensures
            ink == self.spec_flipped(),
    {
        match self {
            Ink::White => Ink::Black,
            Ink::Black => Ink::White,
        }
    }
}

/// The brush for a draw mode and the end of the pen that is in use. The pen
/// draws black with the selected size and erases white three times as wide.
/// The rubber end does the opposite of the mode, at its own fixed size.
pub open spec fn spec_brush(mode: DrawMode, rubber_side: bool) -> Brush {
    let ink = match mode {
        DrawMode::Draw(_) => Ink::Black,
        DrawMode::Erase(_) => Ink::White,
    };
    let size = match mode {
        DrawMode::Draw(s) => s as u64,
        DrawMode::Erase(s) => (s * 3) as u64,
    };
    if rubber_side {
        Brush { ink: ink.spec_flipped(), size: RUBBER_SIZE }
    } else {
        Brush { ink, size }
    }
}

/// The width, in `WIDTH_UNITS`-ths of a pixel, of a stroke between two
/// samples: the sum of their radii, each `size * pressure / WIDTH_UNITS`.
pub open spec fn spec_width(size: u64, a: u16, b: u16) -> int {
    size * (a + b)
}

/// The segment that three consecutive samples give, oldest first.
pub open spec fn spec_segment<P>(
    oldest: Sample<P>,
    middle: Sample<P>,
    newest: Sample<P>,
    brush: Brush,
) -> Segment<P> {
    Segment {
        newest,
        middle,
        oldest,
        start_width: spec_width(brush.size, newest.pressure, middle.pressure) as u64,
        ctrl_width: spec_width(brush.size, middle.pressure, middle.pressure) as u64,
        end_width: spec_width(brush.size, middle.pressure, oldest.pressure) as u64,
        samples: SEGMENT_SAMPLES,
        ink: brush.ink,
    }
}

/// The number of segments that `n` samples give.
pub open spec fn segment_count(n: nat) -> nat {
    if n >= WINDOW {
        (n - 2) as nat
    } else {
        0
    }
}

/// All the segments of a run of samples, in the order in which they are drawn:
/// the `i`-th is made of the samples `i`, `i + 1` and `i + 2`.
pub open spec fn spec_segments<P>(samples: Seq<Sample<P>>, brush: Brush) -> Seq<Segment<P>> {
    Seq::new(
        segment_count(samples.len()),
        |i: int| spec_segment(samples[i], samples[i + 1], samples[i + 2], brush),
    )
}

/// The samples that are still needed once every complete segment is drawn:
/// the last two, or all of them if there are fewer.
pub open spec fn spec_remainder<P>(samples: Seq<Sample<P>>) -> Seq<Sample<P>> {
    samples.subrange(segment_count(samples.len()) as int, samples.len() as int)
}

/// The brush for a draw mode and the end of the pen that is in use.
pub fn brush(mode: DrawMode, rubber_side: bool) -> (b: Brush)
    ensures
        b == spec_brush(mode, rubber_side),
        b.wf(),
{
    let (ink, size) = match mode {
        DrawMode::Draw(s) => (Ink::Black, s as u64),
        DrawMode::Erase(s) => (Ink::White, s as u64 * 3),
    };
    if rubber_side {
        Brush { ink: ink.flipped(), size: RUBBER_SIZE }
    } else {
        Brush { ink, size }
    }
}

/// The width of a stroke between two samples, in `WIDTH_UNITS`-ths of a pixel.
pub fn width(size: u64, a: u16, b: u16) -> (w: u64)
    requires
        size <= MAX_BRUSH,
    ensures
        w == spec_width(size, a, b),
{
    let sum: u64 = a as u64 + b as u64;
    assert(size * sum <= MAX_BRUSH * 131070) by (nonlinear_arith)
        requires
            size <= MAX_BRUSH,
            sum <= 131070,
    ;
    size * sum
}

/// The segment that three consecutive samples give, oldest first.
pub fn segment<P: Copy>(
    oldest: Sample<P>,
    middle: Sample<P>,
    newest: Sample<P>,
    brush: Brush,
) -> (s: Segment<P>)
    requires
        brush.wf(),
    ensures
        s == spec_segment(oldest, middle, newest, brush),
{
    Segment {
        newest,
        middle,
        oldest,
        start_width: width(brush.size, newest.pressure, middle.pressure),
        ctrl_width: width(brush.size, middle.pressure, middle.pressure),
        end_width: width(brush.size, middle.pressure, oldest.pressure),
        samples: SEGMENT_SAMPLES,
        ink: brush.ink,
    }
}

/// The samples of the stroke in progress that segments to come still need.
pub struct StrokeHistory<P> {
    samples: VecDeque<Sample<P>>,
}

impl<P> View for StrokeHistory<P> {
    type V = Seq<Sample<P>>;

    closed spec fn view(&self) -> Seq<Sample<P>> {
        self.samples@
    }
}

impl<P: Copy> StrokeHistory<P> {
    /// A history without samples.
    pub fn new() -> (h: StrokeHistory<P>)
        ensures
            h@ == Seq::<Sample<P>>::empty(),
    {
        StrokeHistory { samples: VecDeque::new() }
    }

    /// The number of samples held.
    pub fn len(&self) -> (n: usize)
        ensures
            n == self@.len(),
    {
        self.samples.len()
    }

    /// Forgets the stroke in progress: the next sample starts a new one.
    pub fn clear(&mut self)
        ensures
            final(self)@ == Seq::<Sample<P>>::empty(),
    {
        self.samples.clear();
    }

    /// Adds a sample to the stroke and returns every segment that it
    /// completes, oldest first. What stays in the history is what the next
    /// segment needs: at most two samples, unless none could be taken.
    pub fn extend(&mut self, sample: Sample<P>, brush: Brush) -> (segments: Vec<Segment<P>>)
        requires
            brush.wf(),
        ensures
            segments@ == spec_segments(old(self)@.push(sample), brush),
            final(self)@ == spec_remainder(old(self)@.push(sample)),
    {
        self.samples.push_back(sample);
        let ghost all = self.samples@;
        let mut segments: Vec<Segment<P>> = Vec::new();
        while self.samples.len() >= WINDOW
            invariant
                brush.wf(),
                segments@.len() + self.samples@.len() == all.len(),
                segments@.len() <= segment_count(all.len()),
                self.samples@ == all.subrange(segments@.len() as int, all.len() as int),
                forall|i: int|
                    0 <= i < segments@.len() ==> #[trigger] segments@[i] == spec_segment(
                        all[i],
                        all[i + 1],
                        all[i + 2],
                        brush,
                    ),
            decreases self.samples@.len(),
        {
            let ghost k = segments@.len() as int;
            let oldest = self.samples.pop_front().unwrap();
            let middle = self.samples[0];
            let newest = self.samples[1];
            assert(oldest == all[k]);
            assert(middle == all[k + 1]);
            assert(newest == all[k + 2]);
            segments.push(segment(oldest, middle, newest, brush));
            assert(self.samples@ =~= all.subrange(k + 1, all.len() as int));
        }
        assert(segments@ =~= spec_segments(all, brush));
        assert(self.samples@ =~= spec_remainder(all));
        segments
    }
}

/// A history that held at most two samples holds at most two again after a
/// sample was added and the complete segments were taken, and that one sample
/// completes at most one segment.
pub proof fn lemma_window_stays_bounded<P>(before: Seq<Sample<P>>, sample: Sample<P>, brush: Brush)
    requires
        before.len() <= 2,
    ensures
        spec_remainder(before.push(sample)).len() <= 2,
        spec_segments(before.push(sample), brush).len() <= 1,
        spec_segments(before.push(sample), brush).len() == 1 <==> before.len() == 2,
{
}

/// Segments overlap by two samples: each begins where the one before it
/// bent, and ends where the one before it began.
pub proof fn lemma_segments_chain<P>(samples: Seq<Sample<P>>, brush: Brush, i: int)
    requires
        0 <= i,
        i + 1 < spec_segments(samples, brush).len(),
    ensures
        spec_segments(samples, brush)[i + 1].oldest == spec_segments(samples, brush)[i].middle,
        spec_segments(samples, brush)[i + 1].middle == spec_segments(samples, brush)[i].newest,
        spec_segments(samples, brush)[i + 1].end_width == spec_segments(
            samples,
            brush,
        )[i].start_width,
{
}

} // verus!
