//! The toolbar and the surface together.

use super::buttons::PressHandler;
use super::surface::AppSurface;
use super::toolbar::{spec_pending, AppToolbar, ToolbarDrawing};
use crate::input::TouchEvent;
use vstd::prelude::*;

verus! {

/// All that the application shows around the drawing.
pub struct AppChrome {
    pub toolbar: AppToolbar,
    pub surface: AppSurface,
}

impl AppChrome {
    /// The chrome as new.
    pub fn new() -> (chrome: AppChrome)
        ensures
            chrome.toolbar.wf(),
            !chrome.toolbar.drawn,
            chrome.toolbar.last_expand == 0,
            chrome.toolbar.spec_expanded(),
            chrome.toolbar.spec_needs_draw(),
            chrome.surface.partial_refresh_rect == (crate::geometry::Rect {
                top: 59,
                left: 0,
                width: 1404,
                height: 1345,
            }),
    {
        AppChrome { toolbar: AppToolbar::new(), surface: AppSurface::new() }
    }

    /// Acts on the pending presses: those of the toolbar's buttons; the
    /// surface has none.
    pub fn update(&mut self) -> (ran: Vec<PressHandler>)
        requires
            old(self).toolbar.wf(),
        ensures
            final(self).toolbar.wf(),
            ran@ == spec_pending(old(self).toolbar.children@, 0),
            old(self).toolbar.spec_updated(&final(self).toolbar),
            final(self).surface == old(self).surface,
    {
        self.toolbar.update()
    }

    /// Says what is to be drawn: of the toolbar; the surface draws nothing.
    pub fn draw(&mut self) -> (drawing: Option<ToolbarDrawing>)
        requires
            old(self).toolbar.wf(),
        ensures
            final(self).toolbar.wf(),
            old(self).toolbar.spec_drawn(&final(self).toolbar, drawing),
            final(self).surface == old(self).surface,
    {
        self.toolbar.draw()
    }

    /// Takes a touch event: the toolbar is told of it; the surface ignores
    /// it.
    pub fn on_input(&mut self, event: TouchEvent)
        requires
            old(self).toolbar.wf(),
        ensures
            final(self).toolbar.wf(),
            old(self).toolbar.spec_touched(&final(self).toolbar, event),
            final(self).surface == old(self).surface,
    {
        self.toolbar.on_input(event);
    }
}

} // verus!
