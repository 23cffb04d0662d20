//! Pictures of the canvas, as plain bytes.
//!
//! The display hands out its pixels two bytes each, in its own format. What
//! is done to a picture is done on three bytes per pixel: red, green, blue,
//! row by row. Converting, scaling and pasting are the work of the driver
//! library and of the `image` library; their contracts are stated here.

use libremarkable::framebuffer::storage::rgbimage_from_u8_slice;
use libremarkable::image::imageops::FilterType;
use libremarkable::image::{DynamicImage, GenericImage, RgbImage};
use vstd::prelude::*;

verus! {

/// A picture: `width` by `height` pixels of three bytes each, row by row.
#[derive(Debug)]
pub struct Bitmap {
    pub width: u32,
    pub height: u32,
    pub rgb: Vec<u8>,
}

/// The number of bytes that the display keeps for a pixel.
pub const DISPLAY_BYTES_PER_PIXEL: usize = 2;

/// The number of bytes that a picture keeps for a pixel.
pub const CHANNELS: usize = 3;

/// The value of a channel at its brightest.
pub const FULL: u8 = 255;

/// The number that the display keeps for a pixel, from its two bytes, of
/// which the lower comes first.
pub open spec fn spec_native(lo: u8, hi: u8) -> int {
    lo + 256 * hi
}

/// The red of a pixel of the display: its upper five bits, stretched to a
/// byte.
pub open spec fn spec_red(lo: u8, hi: u8) -> u8 {
    ((spec_native(lo, hi) / 2048) * 255 / 31) as u8
}

/// The green of a pixel of the display: its middle six bits, stretched to a
/// byte.
pub open spec fn spec_green(lo: u8, hi: u8) -> u8 {
    (((spec_native(lo, hi) / 32) % 64) * 255 / 63) as u8
}

/// The blue of a pixel of the display: its lower five bits, stretched to a
/// byte.
pub open spec fn spec_blue(lo: u8, hi: u8) -> u8 {
    ((spec_native(lo, hi) % 32) * 255 / 31) as u8
}

/// One channel of a pixel of the display: red, green and blue are the
/// channels 0, 1 and 2.
pub open spec fn spec_channel(lo: u8, hi: u8, channel: int) -> u8 {
    if channel == 0 {
        spec_red(lo, hi)
    } else if channel == 1 {
        spec_green(lo, hi)
    } else {
        spec_blue(lo, hi)
    }
}

/// The bytes of a picture, three for each pixel, of the pixels that
/// `pixels` holds in the display's format, two bytes for each.
pub open spec fn spec_rgb_of(pixels: Seq<u8>) -> Seq<u8> {
    Seq::new(
        (3 * (pixels.len() / 2)) as nat,
        |k: int| spec_channel(pixels[2 * (k / 3)], pixels[2 * (k / 3) + 1], k % 3),
    )
}

/// Whether a picture of `ow` by `oh` pixels has room in one of `sw` by `sh`
/// with its corner at `(x, y)`.
pub open spec fn has_room(sw: u32, sh: u32, ow: u32, oh: u32, x: u32, y: u32) -> bool {
    x + ow <= sw && y + oh <= sh
}

/// The byte of a picture `sheet`, `sw` pixels wide, after a picture `other`,
/// `ow` by `oh` pixels, was pasted with its corner at `(x, y)`.
pub open spec fn spec_pasted_byte(
    sheet: Seq<u8>,
    sw: u32,
    other: Seq<u8>,
    ow: u32,
    oh: u32,
    x: u32,
    y: u32,
    at: int,
) -> u8 {
    let row = (at / 3) / (sw as int);
    let col = (at / 3) % (sw as int);
    if x <= col < x + ow && y <= row < y + oh {
        other[3 * ((row - y) * ow + (col - x)) + at % 3]
    } else {
        sheet[at]
    }
}

/// Whether a picture `width` pixels wide can be scaled to fit in `nwidth` by
/// `nheight`: the pictures made on the way must be no larger than can be
/// addressed.
pub open spec fn resizable(width: u32, nwidth: u32, nheight: u32) -> bool {
    &&& 4 * width * nheight <= usize::MAX
    &&& 4 * nwidth * nheight <= usize::MAX
}

/// What scaling a picture with nearest-neighbour sampling gives: the new
/// width, the new height, and the new bytes. The picture keeps its
/// proportions and is made as large as fits in `nwidth` by `nheight`.
pub uninterp spec fn nearest_resized(
    rgb: Seq<u8>,
    width: u32,
    height: u32,
    nwidth: u32,
    nheight: u32,
) -> (u32, u32, Seq<u8>);

impl Bitmap {
    /// The picture has three bytes for each of its pixels.
    pub open spec fn wf(&self) -> bool {
        self.rgb@.len() == 3 * self.width * self.height
    }

    /// A picture of one colour: every channel of every pixel is `value`.
    pub fn filled(width: u32, height: u32, value: u8) -> (sheet: Bitmap)
        requires
            3 * width * height <= usize::MAX,
        ensures
            sheet.wf(),
            sheet.width == width,
            sheet.height == height,
            forall|i: int| 0 <= i < sheet.rgb@.len() ==> sheet.rgb@[i] == value,
    {
        assert(3 * width <= 3 * width * height || height == 0) by (nonlinear_arith);
        assert(3 * width * height == (3 * width) * height) by (nonlinear_arith);
        let len: usize = if height == 0 {
            0
        } else {
            (CHANNELS * (width as usize)) * (height as usize)
        };
        let mut rgb: Vec<u8> = Vec::new();
        let mut i: usize = 0;
        while i < len
            invariant
                i <= len,
                rgb@.len() == i,
                forall|k: int| 0 <= k < i ==> rgb@[k] == value,
            decreases len - i,
        {
            rgb.push(value);
            i += 1;
        }
        Bitmap { width, height, rgb }
    }

    /// The picture that the display's bytes `pixels` show, if they are the
    /// bytes of `width` by `height` pixels, and `None` if they are not.
    pub fn from_display(width: u32, height: u32, pixels: &Vec<u8>) -> (picture: Option<Bitmap>)
        requires
            2 * width * height <= u32::MAX,
            3 * width * height <= usize::MAX,
        ensures
            picture is Some <==> pixels@.len() == 2 * width * height,
            picture matches Some(p) ==> p.wf() && p.width == width && p.height == height
                && p.rgb@ == spec_rgb_of(pixels@),
    {
        assert(2 * width <= 2 * width * height || height == 0) by (nonlinear_arith);
        assert(2 * width * height == height * (width * 2)) by (nonlinear_arith);
        assert(3 * width * height == 3 * (height * (width * 2) / 2)) by (nonlinear_arith);
        if height == 0 {
            assert(3 * width * height == 0 && 2 * width * height == 0) by (nonlinear_arith)
                requires
                    height == 0,
            ;
            if pixels.len() == 0 {
                let rgb: Vec<u8> = Vec::new();
                assert(rgb@ =~= spec_rgb_of(pixels@));
                return Some(Bitmap { width, height, rgb });
            }
            return None;
        }
        if pixels.len() > u32::MAX as usize {
            return None;
        }
        match driver_rgb8(width, height, pixels.as_slice()) {
            Some(rgb) => Some(Bitmap { width, height, rgb }),
            None => None,
        }
    }

    /// The picture scaled to fit in `nwidth` by `nheight`, by
    /// nearest-neighbour sampling.
    pub fn resize(self, nwidth: u32, nheight: u32) -> (scaled: Bitmap)
        requires
            self.wf(),
            self.width >= 1,
            self.height >= 1,
            nwidth >= 1,
            nheight >= 1,
            resizable(self.width, nwidth, nheight),
        ensures
            scaled.wf(),
            (scaled.width, scaled.height, scaled.rgb@) == nearest_resized(
                self.rgb@,
                self.width,
                self.height,
                nwidth,
                nheight,
            ),
    {
        image_resize(self, nwidth, nheight)
    }

    /// Pastes `other` into the picture, with its corner at `(x, y)`. A
    /// picture that has no room there is not pasted at all: the result is
    /// `false`, and the picture stays as it is.
    pub fn copy_from(&mut self, other: &Bitmap, x: u32, y: u32) -> (pasted: bool)
        requires
            old(self).wf(),
            other.wf(),
        ensures
            final(self).wf(),
            final(self).width == old(self).width,
            final(self).height == old(self).height,
            pasted == has_room(old(self).width, old(self).height, other.width, other.height, x, y),
            !pasted ==> final(self).rgb@ == old(self).rgb@,
            pasted ==> forall|at: int|
                0 <= at < old(self).rgb@.len() ==> #[trigger] final(self).rgb@[at]
                    == spec_pasted_byte(
                    old(self).rgb@,
                    old(self).width,
                    other.rgb@,
                    other.width,
                    other.height,
                    x,
                    y,
                    at,
                ),
    {
        image_copy_from(self, other, x, y)
    }
}

/// `rgbimage_from_u8_slice` of the driver library, and the bytes of the image
/// it gives. It gives an image if and only if `pixels` has two bytes for each
/// of `width` by `height` pixels; the products are computed in `u32`, and
/// the image's three bytes per pixel must be no more than can be addressed. Each
/// pixel's two bytes are read as one number, lower byte first, whose upper
/// five, middle six and lower five bits become red, green and blue, each
/// stretched to a byte by multiplying with 255 and dividing by the field's
/// largest value.
#[verifier::external_body]
fn driver_rgb8(width: u32, height: u32, pixels: &[u8]) -> (rgb: Option<Vec<u8>>)
    requires
        width * 2 <= u32::MAX,
        height * (width * 2) <= u32::MAX,
        3 * width * height <= usize::MAX,
        pixels@.len() <= u32::MAX,
    ensures
        rgb is Some <==> pixels@.len() == height * (width * 2),
        rgb matches Some(bytes) ==> bytes@ == spec_rgb_of(pixels@),
{
    rgbimage_from_u8_slice(width, height, pixels).map(|img| img.into_raw())
}

/// `DynamicImage::resize` of the `image` library with the filter `Nearest`,
/// on an image of three bytes per pixel. The result is named, not stated;
/// it is again an image of three bytes per pixel, with a buffer of exactly
/// its size. On its way the library allocates an image as wide as the
/// source and as high as the result, of four numbers per pixel, and then the
/// result; `resizable` keeps both within what can be addressed.
#[verifier::external_body]
fn image_resize(picture: Bitmap, nwidth: u32, nheight: u32) -> (scaled: Bitmap)
    requires
        picture.wf(),
        picture.width >= 1,
        picture.height >= 1,
        nwidth >= 1,
        nheight >= 1,
        resizable(picture.width, nwidth, nheight),
    ensures
        scaled.wf(),
        (scaled.width, scaled.height, scaled.rgb@) == nearest_resized(
            picture.rgb@,
            picture.width,
            picture.height,
            nwidth,
            nheight,
        ),
{
    let source = RgbImage::from_raw(picture.width, picture.height, picture.rgb).unwrap();
    let out = DynamicImage::ImageRgb8(source).resize(nwidth, nheight, FilterType::Nearest);
    let out = out.into_rgb8();
    Bitmap { width: out.width(), height: out.height(), rgb: out.into_raw() }
}

/// `GenericImage::copy_from` of the `image` library, on images of three
/// bytes per pixel. It fails, and copies nothing, unless the other image
/// has room at `(x, y)`; else it copies every pixel of the other image to
/// the place that is `x` further right and `y` further down.
#[verifier::external_body]
fn image_copy_from(sheet: &mut Bitmap, other: &Bitmap, x: u32, y: u32) -> (pasted: bool)
    requires
        old(sheet).wf(),
        other.wf(),
    ensures
        final(sheet).wf(),
        final(sheet).width == old(sheet).width,
        final(sheet).height == old(sheet).height,
        pasted == has_room(old(sheet).width, old(sheet).height, other.width, other.height, x, y),
        !pasted ==> final(sheet).rgb@ == old(sheet).rgb@,
        pasted ==> forall|at: int|
            0 <= at < old(sheet).rgb@.len() ==> #[trigger] final(sheet).rgb@[at]
                == spec_pasted_byte(
                old(sheet).rgb@,
                old(sheet).width,
                other.rgb@,
                other.width,
                other.height,
                x,
                y,
                at,
            ),
{
    let bytes = std::mem::take(&mut sheet.rgb);
    let mut target = RgbImage::from_raw(sheet.width, sheet.height, bytes).unwrap();
    let source = RgbImage::from_raw(other.width, other.height, other.rgb.clone()).unwrap();
    let pasted = target.copy_from(&source, x, y).is_ok();
    sheet.rgb = target.into_raw();
    pasted
}

} // verus!
