//! What the application decides on each event of the pen, of a finger and of
//! the physical buttons.
//!
//! Every function here takes the state and one event and returns what is to
//! be done. The caller does it: it draws, refreshes, and dispatches clicks.

use crate::draw_mode::DrawMode;
use crate::geometry::Point;
use crate::layout::canvas::{canvas_region, spec_canvas_region};
use crate::layout::kebab::{get_kebab_region, spec_kebab_region};
use crate::layout::toolbox::{is_toolbox_open, Toolbox};
use crate::stroke::{
    brush, spec_brush, spec_remainder, spec_segments, Sample, Segment, StrokeHistory,
};
use crate::touch_mode::TouchMode;
use vstd::prelude::*;

verus! {

/// What is known of the pen between events.
pub struct Pen<P> {
    /// The pen is near the display.
    pub in_range: bool,
    /// The pen is held with its rubber end down.
    pub rubber_side: bool,
    /// The pen has been lifted since it last pressed a widget.
    pub unpress_observed: bool,
    /// The samples of the stroke in progress.
    pub history: StrokeHistory<P>,
}

/// The ends of the pen, and its tip touching down.
#[derive(Copy, Clone, PartialEq, Eq, Debug, Structural)]
pub enum PenTool {
    ToolPen,
    ToolRubber,
    Touch,
}

/// An event of the pen. A `Draw` event carries its position twice: as it was
/// measured, and as the pixel it falls on.
#[derive(Copy, Clone, Debug)]
pub enum PenEvent<P> {
    Draw { position: P, x: u32, y: u32, pressure: u16 },
    InstrumentChange { pen: PenTool, state: bool },
    Hover { distance: u16 },
    Unknown,
}

/// What is to be done after an event of the pen.
pub enum PenAction<P> {
    Nothing,
    /// The pen pressed down off the canvas: hand a click to the widget under
    /// the pen, if there is one.
    Click,
    /// Draw these segments in this order, and refresh after each the region
    /// it changed.
    Stroke(Vec<Segment<P>>),
}

/// The distance beyond which a hovering pen counts as lifted.
pub const HOVER_LIFTED: u16 = 1;

/// Whether a pixel belongs to the widgets rather than to the drawing: it lies
/// off the canvas or on the kebab, or the toolbox is open.
pub open spec fn off_canvas(x: u32, y: u32, toolbox_open: bool) -> bool {
    ||| !spec_canvas_region().covers(x as int, y as int)
    ||| toolbox_open
    ||| spec_kebab_region().covers(x as int, y as int)
}

impl<P: Copy> Pen<P> {
    /// A pen of which nothing is known yet: out of range, tip first.
    pub fn new() -> (pen: Pen<P>)
        ensures
            !pen.in_range,
            !pen.rubber_side,
            !pen.unpress_observed,
            pen.history@ == Seq::<Sample<P>>::empty(),
    {
        Pen {
            in_range: false,
            rubber_side: false,
            unpress_observed: false,
            history: StrokeHistory::new(),
        }
    }

    /// Whether two pens agree in everything but the stroke in progress.
    pub open spec fn same_flags(self, other: Pen<P>) -> bool {
        &&& self.in_range == other.in_range
        &&& self.rubber_side == other.rubber_side
        &&& self.unpress_observed == other.unpress_observed
    }
}

/// Whether a pixel belongs to the widgets rather than to the drawing.
pub fn is_off_canvas(x: u32, y: u32, toolbox: &Toolbox) -> (off: bool)
    ensures
        off == off_canvas(x, y, toolbox.is_open()),
{
    !canvas_region().contains_point(x, y) || is_toolbox_open(toolbox)
        || get_kebab_region().contains_point(x, y)
}

/// The pen touches the display at `position`, which falls on the pixel
/// `(x, y)`.
///
/// Off the canvas the stroke in progress ends, and the touch counts as a
/// click if the pen has been lifted since its last one. On the canvas the
/// sample joins the stroke, and every segment that it completes is to be
/// drawn with the brush of the draw mode and of the pen's end in use.
pub fn on_pen_draw<P: Copy>(
    pen: &mut Pen<P>,
    position: P,
    x: u32,
    y: u32,
    pressure: u16,
    mode: DrawMode,
    toolbox: &Toolbox,
) -> (action: PenAction<P>)
    ensures
        final(pen).in_range == old(pen).in_range,
        final(pen).rubber_side == old(pen).rubber_side,
        old(pen).history@.len() <= 2 ==> final(pen).history@.len() <= 2,
        off_canvas(x, y, toolbox.is_open()) ==> {
            &&& final(pen).history@ == Seq::<Sample<P>>::empty()
            &&& !final(pen).unpress_observed
            &&& old(pen).unpress_observed ==> action is Click
            &&& !old(pen).unpress_observed ==> action is Nothing
        },
        !off_canvas(x, y, toolbox.is_open()) ==> {
            let samples = old(pen).history@.push(Sample { position, pressure });
            &&& final(pen).unpress_observed == old(pen).unpress_observed
            &&& final(pen).history@ == spec_remainder(samples)
            &&& action matches PenAction::Stroke(segments)
            &&& segments@ == spec_segments(samples, spec_brush(mode, old(pen).rubber_side))
        },
{
    // This is so that the buttons outside the canvas region, normally meant
    // to be touched with a finger, can be clicked with the stylus.
    if is_off_canvas(x, y, toolbox) {
        pen.history.clear();
        let lifted = pen.unpress_observed;
        pen.unpress_observed = false;
        if lifted {
            return PenAction::Click;
        }
        return PenAction::Nothing;
    }
    let brush = brush(mode, pen.rubber_side);
    let segments = pen.history.extend(Sample { position, pressure }, brush);
    PenAction::Stroke(segments)
}

/// Takes one event of the pen.
///
/// - `Draw`: see `on_pen_draw`.
/// - `InstrumentChange`: an end of the pen comes into range or leaves it,
///   which also tells which end is down; or the tip touches down or lifts,
///   and lifting ends the stroke in progress.
/// - `Hover`: a pen further away than `HOVER_LIFTED` has been lifted: the
///   stroke in progress ends, and its next touch off the canvas is a click.
pub fn on_wacom_input<P: Copy>(
    pen: &mut Pen<P>,
    event: PenEvent<P>,
    mode: DrawMode,
    toolbox: &Toolbox,
) -> (action: PenAction<P>)
    ensures
        old(pen).history@.len() <= 2 ==> final(pen).history@.len() <= 2,
        match event {
            PenEvent::Draw { position, x, y, pressure } => {
                &&& final(pen).in_range == old(pen).in_range
                &&& final(pen).rubber_side == old(pen).rubber_side
                &&& off_canvas(x, y, toolbox.is_open()) ==> {
                    &&& final(pen).history@ == Seq::<Sample<P>>::empty()
                    &&& !final(pen).unpress_observed
                    &&& old(pen).unpress_observed ==> action is Click
                    &&& !old(pen).unpress_observed ==> action is Nothing
                }
                &&& !off_canvas(x, y, toolbox.is_open()) ==> {
                    let samples = old(pen).history@.push(Sample { position, pressure });
                    &&& final(pen).unpress_observed == old(pen).unpress_observed
                    &&& final(pen).history@ == spec_remainder(samples)
                    &&& action matches PenAction::Stroke(segments)
                    &&& segments@ == spec_segments(
                        samples,
                        spec_brush(mode, old(pen).rubber_side),
                    )
                }
            },
            PenEvent::InstrumentChange { pen: tool, state } => {
                &&& action is Nothing
                &&& final(pen).unpress_observed == old(pen).unpress_observed
                &&& match tool {
                    PenTool::ToolPen => {
                        &&& final(pen).in_range == state
                        &&& !final(pen).rubber_side
                        &&& final(pen).history@ == old(pen).history@
                    },
                    PenTool::ToolRubber => {
                        &&& final(pen).in_range == state
                        &&& final(pen).rubber_side
                        &&& final(pen).history@ == old(pen).history@
                    },
                    PenTool::Touch => {
                        &&& final(pen).in_range == old(pen).in_range
                        &&& final(pen).rubber_side == old(pen).rubber_side
                        &&& state ==> final(pen).history@ == old(pen).history@
                        &&& !state ==> final(pen).history@ == Seq::<Sample<P>>::empty()
                    },
                }
            },
            PenEvent::Hover { distance } => {
                &&& action is Nothing
                &&& final(pen).in_range == old(pen).in_range
                &&& final(pen).rubber_side == old(pen).rubber_side
                &&& distance > HOVER_LIFTED ==> final(pen).unpress_observed && final(pen).history@
                    == Seq::<Sample<P>>::empty()
                &&& distance <= HOVER_LIFTED ==> final(pen).unpress_observed == old(
                    pen,
                ).unpress_observed && final(pen).history@ == old(pen).history@
            },
            PenEvent::Unknown => {
                &&& action is Nothing
                &&& final(pen).same_flags(*old(pen))
                &&& final(pen).history@ == old(pen).history@
            },
        },
{
    match event {
        PenEvent::Draw { position, x, y, pressure } => {
            on_pen_draw(pen, position, x, y, pressure, mode, toolbox)
        },
        PenEvent::InstrumentChange { pen: tool, state } => {
            match tool {
                // Whether the pen is in range
                PenTool::ToolPen => {
                    pen.in_range = state;
                    pen.rubber_side = false;
                },
                PenTool::ToolRubber => {
                    pen.in_range = state;
                    pen.rubber_side = true;
                },
                // Whether the pen is actually making contact
                PenTool::Touch => {
                    // Stop drawing when the instrument has left the screen
                    if !state {
                        pen.history.clear();
                    }
                },
            }
            PenAction::Nothing
        },
        PenEvent::Hover { distance } => {
            // A hovering pen's coordinates are not the origin of the next line
            if distance > HOVER_LIFTED {
                pen.history.clear();
                pen.unpress_observed = true;
            }
            PenAction::Nothing
        },
        PenEvent::Unknown => PenAction::Nothing,
    }
}

/// An event of a finger on the display, with the pixel it is at.
#[derive(Copy, Clone, PartialEq, Eq, Debug, Structural)]
pub enum TouchEvent {
    Press { x: u16, y: u16 },
    Release { x: u16, y: u16 },
    Move { x: u16, y: u16 },
    Unknown,
}

/// A point that a curve goes through or bends towards, and the curve's width
/// there, in `WIDTH_UNITS`-ths of a pixel.
#[derive(Copy, Clone, PartialEq, Eq, Debug, Structural)]
pub struct ControlPoint {
    pub position: Point,
    pub width: u32,
}

/// One curve: from `start` to `end`, bent towards `ctrl`.
#[derive(Copy, Clone, PartialEq, Eq, Debug, Structural)]
pub struct Curve {
    pub start: ControlPoint,
    pub ctrl: ControlPoint,
    pub end: ControlPoint,
}

/// What a finger on the canvas draws, in black.
pub enum TouchShape {
    Nothing,
    /// Curves, each drawn with `SQUIGGLE_SAMPLES` straight pieces; what is
    /// refreshed is the box of the regions that they change.
    Squiggle(Vec<Curve>),
    Circle { center: Point, radius: u32 },
    Polygon { corners: Vec<Point>, fill: bool },
}

/// The radius of the circle that a finger leaves.
pub const TOUCH_CIRCLE_RADIUS: u32 = 20;

/// The number of straight pieces that each curve of the squiggle is drawn
/// with.
pub const SQUIGGLE_SAMPLES: i32 = 100;

/// A control point at an offset, with a width.
pub open spec fn spec_control(x: int, y: int, width: int) -> ControlPoint {
    ControlPoint { position: Point { x: x as i32, y: y as i32 }, width: width as u32 }
}

/// The squiggle, around the origin: nine control points, of which every
/// second one ends a curve and begins the next.
pub open spec fn spec_squiggle() -> Seq<ControlPoint> {
    seq![
        spec_control(-40, 0, 10240),
        spec_control(40, -60, 22528),
        spec_control(0, 0, 14336),
        spec_control(-40, 60, 26624),
        spec_control(-10, 50, 20480),
        spec_control(10, 45, 18432),
        spec_control(30, 55, 14336),
        spec_control(50, 65, 12288),
        spec_control(70, 40, 0),
    ]
}

/// The diamond, around the origin: its left, lower, right and upper corner.
pub open spec fn spec_diamond() -> Seq<Point> {
    seq![
        Point { x: -10i32, y: 0 },
        Point { x: 0, y: 20 },
        Point { x: 10, y: 0 },
        Point { x: 0, y: -20i32 },
    ]
}

/// A point moved by `by`.
pub open spec fn spec_moved(p: Point, by: Point) -> Point {
    Point { x: (p.x + by.x) as i32, y: (p.y + by.y) as i32 }
}

/// Whether a point can be moved by `by` without leaving the coordinates.
pub open spec fn movable(p: Point, by: Point) -> bool {
    &&& i32::MIN <= p.x + by.x <= i32::MAX
    &&& i32::MIN <= p.y + by.y <= i32::MAX
}

/// The number of curves that `n` control points give: a curve takes three,
/// and shares its last one with the next curve.
pub open spec fn curve_count(n: nat) -> nat {
    if n >= 3 {
        ((n - 1) / 2) as nat
    } else {
        0
    }
}

/// The curves through a run of control points, moved by `by`: the `i`-th
/// curve starts at the point `2 * i`, bends towards the next one and ends at
/// the one after. A point left over at the end is not used.
pub open spec fn spec_curves(points: Seq<ControlPoint>, by: Point) -> Seq<Curve> {
    Seq::new(
        curve_count(points.len()),
        |i: int|
            Curve {
                start: ControlPoint {
                    position: spec_moved(points[2 * i].position, by),
                    width: points[2 * i].width,
                },
                ctrl: ControlPoint {
                    position: spec_moved(points[2 * i + 1].position, by),
                    width: points[2 * i + 1].width,
                },
                end: ControlPoint {
                    position: spec_moved(points[2 * i + 2].position, by),
                    width: points[2 * i + 2].width,
                },
            },
    )
}

/// The corners of a polygon, moved by `by`.
pub open spec fn spec_corners(corners: Seq<Point>, by: Point) -> Seq<Point> {
    Seq::new(corners.len(), |i: int| spec_moved(corners[i], by))
}

/// Where a finger is, if the event is one that draws: a press or a move.
pub open spec fn spec_drawing_finger(event: TouchEvent) -> Option<Point> {
    match event {
        TouchEvent::Press { x, y } => Some(Point { x: x as i32, y: y as i32 }),
        TouchEvent::Move { x, y } => Some(Point { x: x as i32, y: y as i32 }),
        _ => None,
    }
}

/// Where an event of a finger draws, if it does: it must be a press or a
/// move, on the canvas, in a touch mode that draws.
pub open spec fn spec_touch_point(mode: TouchMode, event: TouchEvent) -> Option<Point> {
    match spec_drawing_finger(event) {
        Some(at) => if spec_canvas_region().covers(at.x as int, at.y as int) && !(mode is OnlyUI) {
            Some(at)
        } else {
            None
        },
        None => None,
    }
}

/// A point moved by `by`.
pub fn moved(p: Point, by: Point) -> (q: Point)
    requires
        movable(p, by),
    ensures
        q == spec_moved(p, by),
{
    Point { x: p.x + by.x, y: p.y + by.y }
}

/// The squiggle, around the origin.
pub fn squiggle() -> (points: Vec<ControlPoint>)
    ensures
        points@ == spec_squiggle(),
{
    let points = vec![
        ControlPoint { position: Point { x: -40, y: 0 }, width: 10240 },
        ControlPoint { position: Point { x: 40, y: -60 }, width: 22528 },
        ControlPoint { position: Point { x: 0, y: 0 }, width: 14336 },
        ControlPoint { position: Point { x: -40, y: 60 }, width: 26624 },
        ControlPoint { position: Point { x: -10, y: 50 }, width: 20480 },
        ControlPoint { position: Point { x: 10, y: 45 }, width: 18432 },
        ControlPoint { position: Point { x: 30, y: 55 }, width: 14336 },
        ControlPoint { position: Point { x: 50, y: 65 }, width: 12288 },
        ControlPoint { position: Point { x: 70, y: 40 }, width: 0 },
    ];
    assert(points@ =~= spec_squiggle());
    points
}

/// The diamond, around the origin.
pub fn diamond() -> (corners: Vec<Point>)
    ensures
        corners@ == spec_diamond(),
{
    let corners = vec![
        Point { x: -10, y: 0 },
        Point { x: 0, y: 20 },
        Point { x: 10, y: 0 },
        Point { x: 0, y: -20 },
    ];
    assert(corners@ =~= spec_diamond());
    corners
}

/// The curves through a run of control points, moved by `by`.
pub fn curves(points: &Vec<ControlPoint>, by: Point) -> (out: Vec<Curve>)
    requires
        forall|i: int| 0 <= i < points@.len() ==> movable((#[trigger] points@[i]).position, by),
    ensures
        out@ == spec_curves(points@, by),
{
    let mut out: Vec<Curve> = Vec::new();
    let n = points.len();
    if n < 3 {
        assert(out@ =~= spec_curves(points@, by));
        return out;
    }
    let mut i: usize = 0;
    while i < n - 2
        invariant
            n == points@.len(),
            n >= 3,
            i == 2 * out@.len(),
            out@.len() <= curve_count(points@.len()),
            forall|i: int| 0 <= i < points@.len() ==> movable((#[trigger] points@[i]).position, by),
            forall|k: int| 0 <= k < out@.len() ==> #[trigger] out@[k] == spec_curves(points@, by)[k],
        decreases points@.len() - i,
    {
        let a = points[i];
        let b = points[i + 1];
        let c = points[i + 2];
        out.push(
            Curve {
                start: ControlPoint { position: moved(a.position, by), width: a.width },
                ctrl: ControlPoint { position: moved(b.position, by), width: b.width },
                end: ControlPoint { position: moved(c.position, by), width: c.width },
            },
        );
        i += 2;
    }
    assert(out@ =~= spec_curves(points@, by));
    out
}

/// The corners of a polygon, moved by `by`.
pub fn corners(shape: &Vec<Point>, by: Point) -> (out: Vec<Point>)
    requires
        forall|i: int| 0 <= i < shape@.len() ==> movable(#[trigger] shape@[i], by),
    ensures
        out@ == spec_corners(shape@, by),
{
    let mut out: Vec<Point> = Vec::new();
    let mut i: usize = 0;
    while i < shape.len()
        invariant
            i == out@.len(),
            i <= shape@.len(),
            forall|i: int| 0 <= i < shape@.len() ==> movable(#[trigger] shape@[i], by),
            forall|k: int| 0 <= k < out@.len() ==> #[trigger] out@[k] == spec_moved(shape@[k], by),
        decreases shape@.len() - i,
    {
        out.push(moved(shape[i], by));
        i += 1;
    }
    assert(out@ =~= spec_corners(shape@, by));
    out
}

/// Takes one event of a finger.
///
/// A finger that presses or moves on the canvas draws the shape of the touch
/// mode around itself: the squiggle, a circle, or the diamond in outline or
/// filled. Every other event, a finger off the canvas, and the mode `OnlyUI`
/// draw nothing.
pub fn on_touch_handler(mode: TouchMode, event: TouchEvent) -> (shape: TouchShape)
    ensures
        match spec_touch_point(mode, event) {
            None => shape is Nothing,
            Some(at) => match mode {
                TouchMode::Bezier => shape matches TouchShape::Squiggle(curves) && curves@
                    == spec_curves(spec_squiggle(), at),
                TouchMode::Circles => shape matches TouchShape::Circle { center, radius }
                    && center == at && radius == TOUCH_CIRCLE_RADIUS,
                TouchMode::Diamonds => shape matches TouchShape::Polygon { corners, fill }
                    && corners@ == spec_corners(spec_diamond(), at) && !fill,
                _ => shape matches TouchShape::Polygon { corners, fill } && corners@
                    == spec_corners(spec_diamond(), at) && fill,
            },
        },
{
    let (x, y) = match event {
        TouchEvent::Press { x, y } => (x, y),
        TouchEvent::Move { x, y } => (x, y),
        _ => return TouchShape::Nothing,
    };
    if !canvas_region().contains_point(x as u32, y as u32) {
        return TouchShape::Nothing;
    }
    let at = Point { x: x as i32, y: y as i32 };
    match mode {
        TouchMode::Bezier => TouchShape::Squiggle(curves(&squiggle(), at)),
        TouchMode::Circles => TouchShape::Circle { center: at, radius: TOUCH_CIRCLE_RADIUS },
        TouchMode::Diamonds => TouchShape::Polygon { corners: corners(&diamond(), at), fill: false },
        TouchMode::FillDiamonds => TouchShape::Polygon {
            corners: corners(&diamond(), at),
            fill: true,
        },
        TouchMode::OnlyUI => TouchShape::Nothing,
    }
}

/// The squiggle is drawn as four curves, each beginning where the one before
/// it ended, and the last control point is used.
pub proof fn lemma_squiggle_is_four_curves(at: Point, i: int)
    requires
        0 <= i < 3,
    ensures
        spec_curves(spec_squiggle(), at).len() == 4,
        spec_curves(spec_squiggle(), at)[i + 1].start == spec_curves(spec_squiggle(), at)[i].end,
        spec_curves(spec_squiggle(), at)[3].end.width == 0,
{
}

/// The physical buttons of the tablet.
#[derive(Copy, Clone, PartialEq, Eq, Debug, Structural)]
pub enum PhysicalButton {
    Left,
    Middle,
    Right,
    Power,
    Wakeup,
}

/// An event of the physical buttons.
#[derive(Copy, Clone, PartialEq, Eq, Debug, Structural)]
pub enum ButtonEvent {
    Press { button: PhysicalButton },
    Unpress { button: PhysicalButton },
    Unknown,
}

/// What is to be done after an event of the physical buttons.
#[derive(Copy, Clone, PartialEq, Eq, Debug, Structural)]
pub enum ButtonAction {
    Nothing,
    /// Hand the tablet back to its own interface and end the application.
    Leave,
    /// Say that the wakeup button was pressed.
    ReportWakeup,
}

/// What a button event leads to: only a press counts, and none counts while
/// the pen is in range, since the hand that holds it presses buttons by
/// accident.
pub open spec fn spec_button_action(event: ButtonEvent, pen_in_range: bool) -> ButtonAction {
    match event {
        ButtonEvent::Press { button } => if pen_in_range {
            ButtonAction::Nothing
        } else {
            match button {
                PhysicalButton::Power => ButtonAction::Leave,
                PhysicalButton::Wakeup => ButtonAction::ReportWakeup,
                _ => ButtonAction::Nothing,
            }
        },
        _ => ButtonAction::Nothing,
    }
}

/// Takes one event of the physical buttons.
pub fn on_button_press(event: ButtonEvent, pen_in_range: bool) -> (action: ButtonAction)
    ensures
        action == spec_button_action(event, pen_in_range),
{
    let (btn, new_state) = match event {
        ButtonEvent::Press { button } => (button, true),
        ButtonEvent::Unpress { button } => (button, false),
        _ => return ButtonAction::Nothing,
    };
    // Ignoring the unpressed event
    if !new_state {
        return ButtonAction::Nothing;
    }
    // Simple but effective accidental button press filtering
    if pen_in_range {
        return ButtonAction::Nothing;
    }
    match btn {
        PhysicalButton::Power => ButtonAction::Leave,
        PhysicalButton::Wakeup => ButtonAction::ReportWakeup,
        _ => ButtonAction::Nothing,
    }
}

} // verus!
