//! The canvas: the part of the display that is drawn on.

use crate::bitmap::{has_room, nearest_resized, spec_pasted_byte, spec_rgb_of, Bitmap, FULL};
use crate::draw_mode::DrawMode;
use crate::geometry::{Point, Rect, Size};
use crate::input::{off_canvas, on_pen_draw, Pen, PenAction};
use crate::layout::toolbox::Toolbox;
use crate::refresh::Refresh;
use crate::stroke::{spec_brush, spec_remainder, spec_segments, Ink, Sample, Segment};
use crate::widget::{RefreshPolicy, Widget, WidgetKind};
use crate::{DISPLAY_HEIGHT, DISPLAY_WIDTH};
use libremarkable::framebuffer::storage::CompressedCanvasState;
use vstd::prelude::*;

verus! {

/// The thickness of the canvas's border.
pub const CANVAS_BORDER: u32 = 2;

/// The canvas takes the whole display.
pub open spec fn spec_canvas_region() -> Rect {
    Rect { top: 0, left: 0, height: DISPLAY_HEIGHT as u32, width: DISPLAY_WIDTH as u32 }
}

/// The canvas's frame: a border drawn just outside the canvas, so that its
/// upper edge lies off the display.
pub open spec fn spec_canvas_frame() -> Widget {
    Widget::spec_region(
        Point { x: spec_canvas_region().left as i32, y: (spec_canvas_region().top - 2) as i32 },
        RefreshPolicy::RefreshAndWait,
        Size {
            width: (spec_canvas_region().width + 1) as u32,
            height: (spec_canvas_region().height + 3) as u32,
        },
        CANVAS_BORDER,
    )
}

/// The region of the display that is drawn on.
pub fn canvas_region() -> (r: Rect)
    ensures
        r == spec_canvas_region(),
        r.fits(),
{
    Rect { top: 0, left: 0, height: DISPLAY_HEIGHT as u32, width: DISPLAY_WIDTH as u32 }
}

/// Creates the canvas's frame.
pub fn create() -> (w: Widget)
    ensures
        w == spec_canvas_frame(),
{
    let region = canvas_region();
    let corner = region.top_left();
    let size = region.size();
    Widget {
        position: Point { x: corner.0 as i32, y: corner.1 as i32 - 2 },
        refresh: RefreshPolicy::RefreshAndWait,
        onclick: None,
        inner: WidgetKind::Region {
            size: Size { width: size.width + 1, height: size.height + 3 },
            border_px: CANVAS_BORDER,
            border_color: Ink::Black,
        },
    }
}

/// The pen touches the display, as `on_pen_draw` has it, and what is drawn
/// is kept: the segments that the sample completes are added to `drawn`, so
/// that the strokes can be drawn again once something has covered them.
pub fn handle_draw_event<P: Copy>(
    pen: &mut Pen<P>,
    drawn: &mut Vec<Segment<P>>,
    position: P,
    x: u32,
    y: u32,
    pressure: u16,
    mode: DrawMode,
    toolbox: &Toolbox,
) -> (action: PenAction<P>)
    ensures
        final(pen).in_range == old(pen).in_range,
        final(pen).rubber_side == old(pen).rubber_side,
        off_canvas(x, y, toolbox.is_open()) ==> {
            &&& final(pen).history@ == Seq::<Sample<P>>::empty()
            &&& !final(pen).unpress_observed
            &&& old(pen).unpress_observed ==> action is Click
            &&& !old(pen).unpress_observed ==> action is Nothing
            &&& final(drawn)@ == old(drawn)@
        },
        !off_canvas(x, y, toolbox.is_open()) ==> {
            let samples = old(pen).history@.push(Sample { position, pressure });
            &&& final(pen).unpress_observed == old(pen).unpress_observed
            &&& final(pen).history@ == spec_remainder(samples)
            &&& action matches PenAction::Stroke(segments)
            &&& segments@ == spec_segments(samples, spec_brush(mode, old(pen).rubber_side))
            &&& final(drawn)@ == old(drawn)@ + segments@
        },
{
    let action = on_pen_draw(pen, position, x, y, pressure, mode, toolbox);
    if let PenAction::Stroke(segments) = &action {
        let mut i: usize = 0;
        while i < segments.len()
            invariant
                i <= segments@.len(),
                drawn@ == old(drawn)@ + segments@.subrange(0, i as int),
            decreases segments@.len() - i,
        {
            drawn.push(segments[i]);
            assert(segments@.subrange(0, i + 1) =~= segments@.subrange(0, i as int).push(
                segments@[i as int],
            ));
            i += 1;
        }
        assert(segments@.subrange(0, i as int) =~= segments@);
    }
    action
}

/// Switches between drawing and erasing. Returns the new mode and the name
/// of the colour it leaves, for the colour indicator.
pub fn on_toggle_eraser(mode: DrawMode) -> (next: (DrawMode, String))
    ensures
        next.0 == mode.toggled(),
        next.0 is Draw ==> next.1@ == "Black"@,
        next.0 is Erase ==> next.1@ == "White"@,
{
    let (new_mode, name) = match mode {
        DrawMode::Erase(s) => (DrawMode::Draw(s), "Black".to_owned()),
        DrawMode::Draw(s) => (DrawMode::Erase(s), "White".to_owned()),
    };
    (new_mode, name)
}

/// The picture of the canvas that was kept, compressed.
#[verifier::external_type_specification]
#[verifier::external_body]
pub struct ExCompressedCanvasState(CompressedCanvasState);

/// The bytes that a kept picture decompresses to.
pub uninterp spec fn kept_pixels(state: CompressedCanvasState) -> Seq<u8>;

/// The place for the one picture of the canvas that can be kept.
pub struct SavedCanvas {
    state: Option<CompressedCanvasState>,
}

impl SavedCanvas {
    /// The bytes of the picture that is kept, if one is.
    pub closed spec fn pixels(&self) -> Option<Seq<u8>> {
        match self.state {
            Some(state) => Some(kept_pixels(state)),
            None => None,
        }
    }

    /// A place in which nothing is kept.
    pub fn new() -> (saved: SavedCanvas)
        ensures
            saved.pixels() is None,
    {
        SavedCanvas { state: None }
    }
}

/// Keeps the picture of the canvas that the display has handed out as
/// `pixels`, in place of the one kept before.
pub fn on_save_canvas(saved: &mut SavedCanvas, pixels: &Vec<u8>)
    ensures
        final(saved).pixels() == Some(pixels@),
{
    let region = canvas_region();
    saved.state = Some(driver_compress(pixels.as_slice(), region.height, region.width));
}

/// The picture of the canvas that is kept, if one is: the bytes to hand
/// back to the display, and the refresh that shows them.
pub fn on_load_canvas(saved: &SavedCanvas) -> (kept: Option<(Vec<u8>, Refresh)>)
    ensures
        kept is Some <==> saved.pixels() is Some,
        kept matches Some(k) ==> Some(k.0@) == saved.pixels() && k.1 == Refresh::spec_image(
            spec_canvas_region(),
        ),
{
    match &saved.state {
        None => None,
        Some(state) => Some((driver_decompress(state), Refresh::image(&canvas_region()))),
    }
}

/// `CompressedCanvasState::new` of the driver library, which compresses the
/// bytes without loss: what it keeps decompresses to `pixels` again. The
/// picture's height and width are kept beside the bytes and never read.
#[verifier::external_body]
fn driver_compress(pixels: &[u8], height: u32, width: u32) -> (state: CompressedCanvasState)
    ensures
        kept_pixels(state) == pixels@,
{
    CompressedCanvasState::new(pixels, height, width)
}

/// `CompressedCanvasState::decompress` of the driver library.
#[verifier::external_body]
fn driver_decompress(state: &CompressedCanvasState) -> (pixels: Vec<u8>)
    ensures
        pixels@ == kept_pixels(*state),
{
    state.decompress()
}

/// Turns the picture of the canvas into its negative, byte by byte, and
/// the pen with it: what drew now erases. Returns the refresh that shows the
/// picture once the display has it back, the new draw mode, and the name of
/// the colour it leaves.
pub fn on_invert_canvas(pixels: &mut Vec<u8>, mode: DrawMode) -> (out: (Refresh, DrawMode, String))
    ensures
        final(pixels)@.len() == old(pixels)@.len(),
        forall|i: int|
            0 <= i < old(pixels)@.len() ==> #[trigger] final(pixels)@[i] == FULL - old(pixels)@[i],
        out.0 == Refresh::spec_image(spec_canvas_region()),
        out.1 == mode.toggled(),
        out.1 is Draw ==> out.2@ == "Black"@,
        out.1 is Erase ==> out.2@ == "White"@,
{
    let mut i: usize = 0;
    while i < pixels.len()
        invariant
            i <= pixels@.len(),
            pixels@.len() == old(pixels)@.len(),
            forall|k: int| 0 <= k < i ==> #[trigger] pixels@[k] == FULL - old(pixels)@[k],
            forall|k: int| i <= k < pixels@.len() ==> #[trigger] pixels@[k] == old(pixels)@[k],
        decreases pixels@.len() - i,
    {
        let byte: u8 = pixels[i];
        let inverted: u8 = !byte;
        assert(inverted == 255 - byte) by (bit_vector)
            requires
                inverted == !byte,
        ;
        pixels.set(i, inverted);
        i += 1;
    }
    // Invert the draw color as well for more natural UX
    let (new_mode, name) = on_toggle_eraser(mode);
    (Refresh::image(&canvas_region()), new_mode, name)
}

/// The picture that the display's bytes of the canvas show, or `None` if
/// they are not the bytes of the whole canvas.
pub fn canvas_picture(pixels: &Vec<u8>) -> (picture: Option<Bitmap>)
    ensures
        picture is Some <==> pixels@.len() == 2 * DISPLAY_WIDTH * DISPLAY_HEIGHT,
        picture matches Some(p) ==> p.wf() && p.width == DISPLAY_WIDTH && p.height
            == DISPLAY_HEIGHT && p.rgb@ == spec_rgb_of(pixels@),
{
    let region = canvas_region();
    Bitmap::from_display(region.width, region.height, pixels)
}

/// The bounds of a zoomed-out picture: four fifths of the picture's extent,
/// rounded down.
pub fn zoom_out_size(size: Size) -> (zoomed: Size)
    ensures
        zoomed.width == size.width * 4 / 5,
        zoomed.height == size.height * 4 / 5,
{
    Size {
        width: (size.width as u64 * 4 / 5) as u32,
        height: (size.height as u64 * 4 / 5) as u32,
    }
}

/// Where a zoomed-out picture goes on the canvas: an eighth of the canvas's
/// extent in from its corner.
pub open spec fn spec_zoom_out_corner() -> (u32, u32) {
    ((DISPLAY_WIDTH / 8) as u32, (DISPLAY_HEIGHT / 8) as u32)
}

/// Puts a scaled picture on a white sheet of the canvas's size, with its
/// corner an eighth of the canvas's extent in from the sheet's corner. A
/// picture that has no room there gives `None`.
pub fn place_zoomed(scaled: &Bitmap) -> (sheet: Option<Bitmap>)
    requires
        scaled.wf(),
    ensures
        sheet is Some <==> has_room(
            DISPLAY_WIDTH as u32,
            DISPLAY_HEIGHT as u32,
            scaled.width,
            scaled.height,
            spec_zoom_out_corner().0,
            spec_zoom_out_corner().1,
        ),
        sheet matches Some(s) ==> {
            &&& s.wf()
            &&& s.width == DISPLAY_WIDTH
            &&& s.height == DISPLAY_HEIGHT
            &&& forall|at: int|
                0 <= at < s.rgb@.len() ==> #[trigger] s.rgb@[at] == spec_pasted_byte(
                    Seq::new(s.rgb@.len(), |i: int| FULL),
                    DISPLAY_WIDTH as u32,
                    scaled.rgb@,
                    scaled.width,
                    scaled.height,
                    spec_zoom_out_corner().0,
                    spec_zoom_out_corner().1,
                    at,
                )
        },
{
    let region = canvas_region();
    // A clean picture the size of the canvas
    let mut sheet = Bitmap::filled(region.width, region.height, FULL);
    // The scaled picture goes into it
    if sheet.copy_from(scaled, region.width / 8, region.height / 8) {
        Some(sheet)
    } else {
        None
    }
}

/// The canvas's picture scaled to four fifths: its width, its height and
/// its bytes.
pub open spec fn spec_zoomed(pixels: Seq<u8>) -> (u32, u32, Seq<u8>) {
    nearest_resized(
        spec_rgb_of(pixels),
        DISPLAY_WIDTH as u32,
        DISPLAY_HEIGHT as u32,
        (DISPLAY_WIDTH * 4 / 5) as u32,
        (DISPLAY_HEIGHT * 4 / 5) as u32,
    )
}

/// Whether the canvas can be shown zoomed out from the display's bytes
/// `pixels`: they must be the bytes of the whole canvas, and the scaled
/// picture must have room in its place.
pub open spec fn can_zoom_out(pixels: Seq<u8>) -> bool {
    &&& pixels.len() == 2 * DISPLAY_WIDTH * DISPLAY_HEIGHT
    &&& has_room(
        DISPLAY_WIDTH as u32,
        DISPLAY_HEIGHT as u32,
        spec_zoomed(pixels).0,
        spec_zoomed(pixels).1,
        spec_zoom_out_corner().0,
        spec_zoom_out_corner().1,
    )
}

/// Shows the canvas zoomed out: its picture, scaled to four fifths, on a
/// white sheet. Returns the picture to put on the display and the refresh
/// that shows it; `None` where `can_zoom_out` does not hold.
pub fn on_zoom_out(pixels: &Vec<u8>) -> (shown: Option<(Bitmap, Refresh)>)
    ensures
        shown is Some <==> can_zoom_out(pixels@),
        shown matches Some(s) ==> {
            &&& s.0.wf()
            &&& s.0.width == DISPLAY_WIDTH
            &&& s.0.height == DISPLAY_HEIGHT
            &&& s.1 == Refresh::spec_image(spec_canvas_region())
            &&& forall|at: int|
                0 <= at < s.0.rgb@.len() ==> #[trigger] s.0.rgb@[at] == spec_pasted_byte(
                    Seq::new(s.0.rgb@.len(), |i: int| FULL),
                    DISPLAY_WIDTH as u32,
                    spec_zoomed(pixels@).2,
                    spec_zoomed(pixels@).0,
                    spec_zoomed(pixels@).1,
                    spec_zoom_out_corner().0,
                    spec_zoom_out_corner().1,
                    at,
                )
        },
{
    let region = canvas_region();
    let picture = match canvas_picture(pixels) {
        Some(picture) => picture,
        None => return None,
    };
    let bounds = zoom_out_size(region.size());
    assert(bounds.width == 1123 && bounds.height == 1497);
    let scaled = picture.resize(bounds.width, bounds.height);
    assert((scaled.width, scaled.height, scaled.rgb@) == spec_zoomed(pixels@));
    match place_zoomed(&scaled) {
        Some(sheet) => Some((sheet, Refresh::image(&region))),
        None => None,
    }
}

} // verus!
