//! Requests to bring the display up to date.
//!
//! An e-ink panel is refreshed region by region, and how it is driven decides
//! between speed and fidelity. Each purpose in this application has its own
//! settings; they are fixed here, in one place.

use crate::geometry::Rect;
use vstd::prelude::*;

verus! {

/// How the panel is driven during an update.
#[derive(Copy, Clone, PartialEq, Eq, Debug, Structural)]
pub enum Waveform {
    /// Goes to white; clears ghosting.
    Init,
    /// Direct update, black and white only: the fastest.
    Du,
    /// Full fidelity.
    Gc16,
    /// Medium fidelity, used for images on the canvas.
    Gc16Fast,
    /// Quick partial updates of widgets.
    Glr16,
}

/// How gray levels are approximated during an update.
#[derive(Copy, Clone, PartialEq, Eq, Debug, Structural)]
pub enum Dither {
    Passthrough,
    Drawing,
    RemarkableDither,
    Alpha,
    Exp1,
}

/// One update of the display.
#[derive(Copy, Clone, PartialEq, Eq, Debug, Structural)]
pub struct Refresh {
    /// The region to update; `None` for the whole display.
    pub region: Option<Rect>,
    pub waveform: Waveform,
    pub dither: Dither,
    pub quant_bit: i32,
    /// Whether to wait until the panel has finished.
    pub wait: bool,
}

/// The quantisation setting with which the panel draws pen strokes.
pub const DRAWING_QUANT_BIT: i32 = 0x7614_3b24;

impl Refresh {
    /// The whole display, at full fidelity, and wait for it.
    pub fn update_full() -> (r: Refresh)
        ensures
            r == (Refresh {
                region: None,
                waveform: Waveform::Gc16,
                dither: Dither::RemarkableDither,
                quant_bit: 0,
                wait: true,
            }),
    {
        Refresh {
            region: None,
            waveform: Waveform::Gc16,
            dither: Dither::RemarkableDither,
            quant_bit: 0,
            wait: true,
        }
    }

    /// A region that holds a widget.
    pub open spec fn spec_partial(region: Rect) -> Refresh {
        Refresh {
            region: Some(region),
            waveform: Waveform::Glr16,
            dither: Dither::Passthrough,
            quant_bit: 0,
            wait: false,
        }
    }

    /// A region that holds a widget.
    pub fn update_partial(region: &Rect) -> (r: Refresh)
        ensures
            r == Refresh::spec_partial(*region),
    {
        Refresh {
            region: Some(*region),
            waveform: Waveform::Glr16,
            dither: Dither::Passthrough,
            quant_bit: 0,
            wait: false,
        }
    }

    /// A region that holds only black and white.
    pub fn update_partial_mono(region: &Rect) -> (r: Refresh)
        ensures
            r == (Refresh {
                region: Some(*region),
                waveform: Waveform::Du,
                dither: Dither::Passthrough,
                quant_bit: 0,
                wait: false,
            }),
    {
        Refresh {
            region: Some(*region),
            waveform: Waveform::Du,
            dither: Dither::Passthrough,
            quant_bit: 0,
            wait: false,
        }
    }

    /// The region that a piece of a pen stroke has changed.
    pub fn stroke(region: &Rect) -> (r: Refresh)
        ensures
            r == (Refresh {
                region: Some(*region),
                waveform: Waveform::Du,
                dither: Dither::Exp1,
                quant_bit: DRAWING_QUANT_BIT,
                wait: false,
            }),
    {
        Refresh {
            region: Some(*region),
            waveform: Waveform::Du,
            dither: Dither::Exp1,
            quant_bit: DRAWING_QUANT_BIT,
            wait: false,
        }
    }

    /// The region that a shape drawn by a finger has changed.
    pub fn touch(region: &Rect) -> (r: Refresh)
        ensures
            r == (Refresh {
                region: Some(*region),
                waveform: Waveform::Du,
                dither: Dither::Alpha,
                quant_bit: DRAWING_QUANT_BIT,
                wait: false,
            }),
    {
        Refresh {
            region: Some(*region),
            waveform: Waveform::Du,
            dither: Dither::Alpha,
            quant_bit: DRAWING_QUANT_BIT,
            wait: false,
        }
    }

    /// A region that was wiped to white.
    pub fn cleared(region: &Rect) -> (r: Refresh)
        ensures
            r == (Refresh {
                region: Some(*region),
                waveform: Waveform::Init,
                dither: Dither::Exp1,
                quant_bit: DRAWING_QUANT_BIT,
                wait: false,
            }),
    {
        Refresh {
            region: Some(*region),
            waveform: Waveform::Init,
            dither: Dither::Exp1,
            quant_bit: DRAWING_QUANT_BIT,
            wait: false,
        }
    }

    /// A region into which an image was put.
    pub open spec fn spec_image(region: Rect) -> Refresh {
        Refresh {
            region: Some(region),
            waveform: Waveform::Gc16Fast,
            dither: Dither::Passthrough,
            quant_bit: 0,
            wait: false,
        }
    }

    /// A region into which an image was put.
    pub fn image(region: &Rect) -> (r: Refresh)
        ensures
            r == Refresh::spec_image(*region),
    {
        Refresh {
            region: Some(*region),
            waveform: Waveform::Gc16Fast,
            dither: Dither::Passthrough,
            quant_bit: 0,
            wait: false,
        }
    }

    /// The whole display, on the user's request: at full fidelity, with the
    /// drawing settings, and wait for it.
    pub open spec fn spec_tapped() -> Refresh {
        Refresh {
            region: None,
            waveform: Waveform::Gc16,
            dither: Dither::Drawing,
            quant_bit: DRAWING_QUANT_BIT,
            wait: true,
        }
    }

    /// The whole display, on the user's request.
    pub fn tapped() -> (r: Refresh)
        ensures
            r == Refresh::spec_tapped(),
    {
        Refresh {
            region: None,
            waveform: Waveform::Gc16,
            dither: Dither::Drawing,
            quant_bit: DRAWING_QUANT_BIT,
            wait: true,
        }
    }
}

} // verus!
