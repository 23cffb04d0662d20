//! Buttons.

use crate::canvas::is_hitting;
use crate::geometry::{OptPoint, Rect};
use crate::input::TouchEvent;
use crate::refresh::Refresh;
use crate::widget::Icon;
use vstd::prelude::*;

verus! {

/// How a button looks.
#[derive(Copy, Clone, PartialEq, Eq, Debug, Structural)]
pub enum ButtonStyle {
    Rect,
    RectDark,
    Round,
    RoundDark,
    Image,
    DropDown,
    Toggle,
}

/// What a press on a button sets off.
#[derive(Copy, Clone, PartialEq, Eq, Debug, Structural)]
pub enum PressHandler {
    /// Folds the toolbar in or out: the button's selection goes from its
    /// first entry to its second and back.
    Title,
    /// Opens the button's menu, or closes it.
    Brushes,
    /// Saves the surface. The button itself stays as it is.
    Save,
    /// Clears the surface. The button itself stays as it is.
    Clear,
    /// Wipes the display and ends the application.
    Exit,
}

/// What is to be drawn of a button. The region that the drawing takes is
/// the button's new hitbox: hand it to `AppButton::set_hitbox`.
#[derive(Copy, Clone, PartialEq, Eq, Debug, Structural)]
pub enum ButtonDrawing {
    /// The entry `option` of the button's options, as black text at the
    /// button's position.
    Toggle { option: usize },
    /// The button's options as a menu, open or not, with the entry
    /// `selected` shown while it is closed, and `gap` for both its gaps.
    DropDown { open: bool, selected: usize, gap: u32 },
    /// An image at the button's position.
    Image { icon: Icon },
    /// The button's text in black, in a frame at the distance `gap`.
    Rect { gap: u32 },
    /// The button's text in white, on a filled frame at the distance `gap`.
    RectDark { gap: u32 },
    /// The button's text in black, in a circle.
    Round,
    /// The button's text in white, on a filled circle.
    RoundDark,
}

/// The distance between a button's text and its frame.
pub const DRAW_GAP: u32 = 6;

/// A button.
pub struct AppButton {
    /// The button is on the display as it is.
    pub drawn: bool,
    pub point: OptPoint,
    /// The size of the button's letters.
    pub weight: u32,
    /// The button was pressed, and the press has not been acted on yet.
    pub pressed: bool,
    pub style: ButtonStyle,
    pub text: Option<&'static str>,
    pub image: Option<Icon>,
    /// The region that the button took when it was last drawn.
    pub hitbox: Option<Rect>,
    pub options: Option<Vec<String>>,
    pub show_options: bool,
    pub selected: usize,
    pub on_press: PressHandler,
}

impl AppButton {
    /// Whether the button has what its style shows: a toggle and a menu
    /// have options, of which one is selected; an image button has an
    /// image; and a button that folds the toolbar has two entries to go
    /// between. A hitbox, once there is one, has representable far edges.
    pub open spec fn wf(&self) -> bool {
        &&& (self.style is Toggle || self.style is DropDown) ==> self.options is Some
            && self.selected < self.options->0@.len()
        &&& (self.style is Toggle || self.style is DropDown) && self.on_press is Title
            ==> self.options->0@.len() >= 2
        &&& self.style is Image ==> self.image is Some
        &&& self.hitbox is Some ==> self.hitbox->0.fits()
    }

    /// The selection after a press on a button that folds the toolbar.
    pub open spec fn spec_folded(selected: usize) -> usize {
        if selected == 0 {
            1
        } else {
            0
        }
    }

    /// What a pending press sets off, if there is one.
    pub open spec fn spec_ran(&self) -> Option<PressHandler> {
        if self.pressed {
            Some(self.on_press)
        } else {
            None
        }
    }

    /// The button after a pending press was acted on. A press that folds the
    /// toolbar or opens the menu changes the button, which is then to be
    /// drawn again; every other press leaves the button as it is.
    pub open spec fn spec_updated(self) -> AppButton {
        if !self.pressed {
            self
        } else {
            match self.on_press {
                PressHandler::Title => AppButton {
                    pressed: false,
                    drawn: false,
                    selected: Self::spec_folded(self.selected),
                    ..self
                },
                PressHandler::Brushes => AppButton {
                    pressed: false,
                    drawn: false,
                    show_options: !self.show_options,
                    ..self
                },
                _ => AppButton { pressed: false, ..self },
            }
        }
    }

    /// The button after a touch event: a finger that went down on it leaves
    /// a press pending.
    pub open spec fn spec_touched(self, event: TouchEvent) -> AppButton {
        if self.spec_presses(event) {
            AppButton { pressed: true, ..self }
        } else {
            self
        }
    }

    /// What is to be drawn of the button.
    pub open spec fn spec_drawing(&self) -> ButtonDrawing {
        match self.style {
            ButtonStyle::Toggle => ButtonDrawing::Toggle { option: self.selected },
            ButtonStyle::DropDown => ButtonDrawing::DropDown {
                open: self.show_options,
                selected: self.selected,
                gap: DRAW_GAP,
            },
            ButtonStyle::Image => ButtonDrawing::Image { icon: self.image->0 },
            ButtonStyle::Rect => ButtonDrawing::Rect { gap: DRAW_GAP },
            ButtonStyle::RectDark => ButtonDrawing::RectDark { gap: DRAW_GAP },
            ButtonStyle::Round => ButtonDrawing::Round,
            ButtonStyle::RoundDark => ButtonDrawing::RoundDark,
        }
    }

    /// The region to refresh first when a menu is redrawn over what it took
    /// before: whichever of the two is higher, so that an open menu that
    /// closes is wiped as a whole.
    pub open spec fn spec_menu_region(before: Option<Rect>, now: Rect) -> Rect {
        match before {
            Some(old) => if old.height > now.height {
                old
            } else {
                now
            },
            None => now,
        }
    }

    /// Whether the button has what its style shows.
    pub fn check(&self) -> (ok: bool)
        ensures
            ok == self.wf(),
    {
        let listed = match self.style {
            ButtonStyle::Toggle => true,
            ButtonStyle::DropDown => true,
            _ => false,
        };
        let folds = match self.on_press {
            PressHandler::Title => true,
            _ => false,
        };
        let pictured = match self.style {
            ButtonStyle::Image => true,
            _ => false,
        };
        let entries_ok = match &self.options {
            Some(options) => self.selected < options.len() && (!folds || options.len() >= 2),
            None => !listed,
        };
        let hitbox_ok = match self.hitbox {
            Some(hitbox) => hitbox.check_fits(),
            None => true,
        };
        (!listed || entries_ok) && (!pictured || self.image.is_some()) && hitbox_ok
    }

    /// A button that is not drawn yet, not pressed, with its first option
    /// selected and its menu closed.
    pub fn new(
        text: Option<&'static str>,
        image: Option<Icon>,
        point: OptPoint,
        weight: u32,
        style: ButtonStyle,
        options: Option<Vec<String>>,
        on_press: PressHandler,
    ) -> (button: AppButton)
        ensures
            !button.drawn,
            !button.pressed,
            !button.show_options,
            button.selected == 0,
            button.hitbox is None,
            button.text == text,
            button.image == image,
            button.point == point,
            button.weight == weight,
            button.style == style,
            button.options == options,
            button.on_press == on_press,
    {
        AppButton {
            drawn: false,
            pressed: false,
            point,
            weight,
            style,
            text,
            image,
            options,
            on_press,
            show_options: false,
            selected: 0,
            hitbox: None,
        }
    }

    /// Whether the button is to be drawn.
    pub fn needs_draw(&self) -> (needed: bool)
        ensures
            needed == !self.drawn,
    {
        !self.drawn
    }

    /// Marks the button as to be drawn again.
    pub fn reset_drawn(&mut self)
        ensures
            *final(self) == (AppButton { drawn: false, ..*old(self) }),
    {
        self.drawn = false;
    }

    /// The button's text; a button without text has the empty one.
    pub fn label(&self) -> (text: &'static str)
        ensures
            self.text is Some ==> text == self.text->0,
            self.text is None ==> text@ == Seq::<char>::empty(),
    {
        match self.text {
            Some(text) => text,
            None => {
                proof {
                    reveal_strlit("");
                }
                ""
            },
        }
    }

    /// Acts on a pending press, if there is one, and returns what it has set
    /// off. What a press on `Save`, `Clear` or `Exit` stands for is the
    /// caller's to do.
    pub fn update(&mut self) -> (ran: Option<PressHandler>)
        requires
            old(self).wf(),
        ensures
            final(self).wf(),
            ran == old(self).spec_ran(),
            *final(self) == old(self).spec_updated(),
    {
        if !self.pressed {
            return None;
        }
        self.pressed = false;
        match self.on_press {
            PressHandler::Title => {
                self.selected = match self.selected {
                    0 => 1,
                    _ => 0,
                };
                self.reset_drawn();
            },
            PressHandler::Brushes => {
                self.show_options = !self.show_options;
                self.reset_drawn();
            },
            _ => {},
        }
        Some(self.on_press)
    }

    /// Says what is to be drawn of the button, and marks it as drawn. A
    /// button that is on the display as it is needs nothing drawn.
    pub fn draw(&mut self) -> (drawing: Option<ButtonDrawing>)
        requires
            old(self).wf(),
        ensures
            *final(self) == (AppButton { drawn: true, ..*old(self) }),
            old(self).drawn ==> drawing is None,
            !old(self).drawn ==> drawing == Some(old(self).spec_drawing()),
    {
        if self.drawn {
            return None;
        }
        self.drawn = true;
        Some(
            match self.style {
                ButtonStyle::Toggle => ButtonDrawing::Toggle { option: self.selected },
                ButtonStyle::DropDown => ButtonDrawing::DropDown {
                    open: self.show_options,
                    selected: self.selected,
                    gap: DRAW_GAP,
                },
                ButtonStyle::Image => ButtonDrawing::Image { icon: self.image.unwrap() },
                ButtonStyle::Rect => ButtonDrawing::Rect { gap: DRAW_GAP },
                ButtonStyle::RectDark => ButtonDrawing::RectDark { gap: DRAW_GAP },
                ButtonStyle::Round => ButtonDrawing::Round,
                ButtonStyle::RoundDark => ButtonDrawing::RoundDark,
            },
        )
    }

    /// Takes the region that drawing the button took, which is what a touch
    /// has to hit from now on, and returns the regions to refresh, in this
    /// order. A menu refreshes what `spec_menu_region` says before its own
    /// region; every other button refreshes its own region alone.
    pub fn set_hitbox(&mut self, hitbox: Rect) -> (refreshes: Vec<Refresh>)
        requires
            old(self).wf(),
            hitbox.fits(),
        ensures
            final(self).wf(),
            *final(self) == (AppButton { hitbox: Some(hitbox), ..*old(self) }),
            old(self).style is DropDown ==> refreshes@ == seq![
                Refresh::spec_partial(Self::spec_menu_region(old(self).hitbox, hitbox)),
                Refresh::spec_partial(hitbox),
            ],
            !(old(self).style is DropDown) ==> refreshes@ == seq![Refresh::spec_partial(hitbox)],
    {
        let mut refreshes: Vec<Refresh> = Vec::new();
        if let ButtonStyle::DropDown = self.style {
            let first = match self.hitbox {
                Some(old_hitbox) => if old_hitbox.height > hitbox.height {
                    old_hitbox
                } else {
                    hitbox
                },
                None => hitbox,
            };
            refreshes.push(Refresh::update_partial(&first));
        }
        self.hitbox = Some(hitbox);
        refreshes.push(Refresh::update_partial(&hitbox));
        assert(old(self).style is DropDown ==> refreshes@ =~= seq![
            Refresh::spec_partial(Self::spec_menu_region(old(self).hitbox, hitbox)),
            Refresh::spec_partial(hitbox),
        ]);
        assert(!(old(self).style is DropDown) ==> refreshes@ =~= seq![
            Refresh::spec_partial(hitbox),
        ]);
        refreshes
    }

    /// Whether a touch event presses the button: it is a finger going down
    /// inside the region that the button took when it was last drawn.
    pub open spec fn spec_presses(&self, event: TouchEvent) -> bool {
        &&& event matches TouchEvent::Press { x, y }
        &&& self.hitbox matches Some(hitbox)
        &&& crate::canvas::spec_hits(x, y, hitbox)
    }

    /// Takes a touch event. A finger that goes down on the button leaves a
    /// press pending, which `update` acts on.
    pub fn on_input(&mut self, event: TouchEvent)
        requires
            old(self).wf(),
        ensures
            *final(self) == old(self).spec_touched(event),
            final(self).wf(),
    {
        if let TouchEvent::Press { x, y } = event {
            if let Some(hitbox) = self.hitbox {
                if is_hitting(x, y, hitbox) {
                    self.pressed = true;
                }
            }
        }
    }
}

} // verus!
