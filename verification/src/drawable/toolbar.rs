//! The toolbar: a title that folds it in and out, and four buttons.

use super::assets::Asset;
use super::buttons::{AppButton, ButtonStyle, PressHandler};
use crate::canvas::{centered_point, Line};
use crate::geometry::{OptPoint, Rect};
use crate::input::TouchEvent;
use crate::refresh::Refresh;
use crate::widget::Icon;
use crate::DISPLAY_WIDTH;
use vstd::prelude::*;

verus! {

/// The toolbar.
pub struct AppToolbar {
    /// The toolbar is on the display as it is.
    pub drawn: bool,
    /// The title's selection when the toolbar was last drawn.
    pub last_expand: usize,
    /// The ends of the line under the toolbar.
    pub line_point_a: OptPoint,
    pub line_point_b: OptPoint,
    pub line_width: u32,
    pub partial_refresh_rect: Rect,
    /// The title first, then the buttons.
    pub children: Vec<AppButton>,
}

/// What is to be drawn of the toolbar, on a display wiped clean: the line
/// under it, if there is one, from its one end to its other, of the given
/// thickness; the first `children` of its buttons, each as its own `draw`
/// says; and at last the refresh.
#[derive(Copy, Clone, PartialEq, Eq, Debug, Structural)]
pub struct ToolbarDrawing {
    pub line: Option<Line>,
    pub children: usize,
    pub refresh: Refresh,
}

/// The toolbar's height.
pub const APP_TOOLBAR_HEIGHT: i32 = 58;

/// The toolbar's width: that of the display.
pub const APP_TOOLBAR_WIDTH: i32 = 1404;

/// The number of the toolbar's buttons, the title included.
pub const TOOLBAR_BUTTONS: usize = 5;

/// The entries of the title: the toolbar's name in full while it is folded
/// out, and short while it is folded in.
pub open spec fn spec_title_options() -> Seq<Seq<char>> {
    seq!["Harmonizers"@, "H >"@]
}

/// The entries of the menu of brushes. The empty ones are drawn as lines.
pub open spec fn spec_brush_options() -> Seq<Seq<char>> {
    seq![
        "SKETCHY"@,
        "SHADED"@,
        "CHROME"@,
        "FUR"@,
        "LONGFUR"@,
        "WEB"@,
        ""@,
        "SIMPLE"@,
        "SQUARES"@,
        "RIBBON"@,
        ""@,
        "CIRCLES"@,
        "GRID"@,
    ]
}

/// Whether the strings `options` read `texts`, one by one.
pub open spec fn reads(options: Seq<String>, texts: Seq<Seq<char>>) -> bool {
    &&& options.len() == texts.len()
    &&& forall|i: int| 0 <= i < options.len() ==> (#[trigger] options[i])@ == texts[i]
}

/// Whether `button` is an image button of the toolbar, as new.
pub open spec fn is_icon_button(button: AppButton, icon: Icon, x: int, on_press: PressHandler) -> bool {
    &&& button.wf()
    &&& !button.drawn
    &&& !button.pressed
    &&& !button.show_options
    &&& button.selected == 0
    &&& button.hitbox is None
    &&& button.text is None
    &&& button.image == Some(icon)
    &&& button.point == (OptPoint { x: Some(x as i32), y: Some(16i32) })
    &&& button.weight == 25
    &&& button.style == ButtonStyle::Image
    &&& button.options is None
    &&& button.on_press == on_press
}

/// The handlers that the buttons from `from` on set off when their pending
/// presses are acted on one after the other: those of the pressed buttons, in
/// order, and none after one that ends the application.
pub open spec fn spec_pending(children: Seq<AppButton>, from: int) -> Seq<PressHandler>
    decreases children.len() - from,
{
    if from < 0 || from >= children.len() {
        Seq::empty()
    } else if children[from].pressed {
        if children[from].on_press is Exit {
            seq![PressHandler::Exit]
        } else {
            seq![children[from].on_press] + spec_pending(children, from + 1)
        }
    } else {
        spec_pending(children, from + 1)
    }
}

/// The index of the first button from `from` on whose pending press ends the
/// application; the number of buttons if there is none.
pub open spec fn spec_stop(children: Seq<AppButton>, from: int) -> int
    decreases children.len() - from,
{
    if from < 0 || from >= children.len() {
        children.len() as int
    } else if children[from].pressed && children[from].on_press is Exit {
        from
    } else {
        spec_stop(children, from + 1)
    }
}

impl AppToolbar {
    /// The toolbar has its five buttons, and each has what its style shows.
    pub open spec fn wf(&self) -> bool {
        &&& self.children@.len() == TOOLBAR_BUTTONS
        &&& forall|i: int| 0 <= i < self.children@.len() ==> (#[trigger] self.children@[i]).wf()
    }

    /// The toolbar is folded out: its title shows its first entry.
    pub open spec fn spec_expanded(&self) -> bool {
        self.children@[0].selected == 0
    }

    /// Whether anything of the toolbar is to be drawn: it never was, it was
    /// folded since, or one of its buttons is to be drawn.
    pub open spec fn spec_needs_draw(&self) -> bool {
        ||| !self.drawn
        ||| self.children@[0].selected != self.last_expand
        ||| exists|i: int| 0 <= i < self.children@.len() && !(#[trigger] self.children@[i]).drawn
    }

    /// The number of buttons that are drawn: all while the toolbar is folded
    /// out, and the title alone while it is folded in.
    pub open spec fn spec_shown(&self) -> usize {
        if self.spec_expanded() {
            TOOLBAR_BUTTONS
        } else {
            1
        }
    }

    /// Whether `after` is this toolbar with nothing changed but, maybe, its
    /// buttons and what it remembers of its last drawing.
    pub open spec fn same_frame(&self, after: &AppToolbar) -> bool {
        &&& after.line_point_a == self.line_point_a
        &&& after.line_point_b == self.line_point_b
        &&& after.line_width == self.line_width
        &&& after.partial_refresh_rect == self.partial_refresh_rect
        &&& after.children@.len() == self.children@.len()
    }

    /// Whether `after` is this toolbar once the pending presses of its
    /// buttons were acted on, one after the other: every button up to the
    /// first one that ends the application has acted on its press, and the
    /// buttons after that one keep theirs.
    pub open spec fn spec_updated(&self, after: &AppToolbar) -> bool {
        &&& self.same_frame(after)
        &&& after.drawn == self.drawn
        &&& after.last_expand == self.last_expand
        &&& forall|i: int|
            0 <= i < self.children@.len() ==> #[trigger] after.children@[i] == if i <= spec_stop(
                self.children@,
                0,
            ) {
                self.children@[i].spec_updated()
            } else {
                self.children@[i]
            }
    }

    /// Whether `after` is this toolbar once every button was told of a
    /// touch event.
    pub open spec fn spec_touched(&self, after: &AppToolbar, event: TouchEvent) -> bool {
        &&& self.same_frame(after)
        &&& after.drawn == self.drawn
        &&& after.last_expand == self.last_expand
        &&& forall|i: int|
            0 <= i < self.children@.len() ==> #[trigger] after.children@[i]
                == self.children@[i].spec_touched(event)
    }

    /// What is to be drawn of a toolbar that has something to be drawn.
    pub open spec fn spec_drawing(&self) -> ToolbarDrawing {
        ToolbarDrawing {
            line: if self.spec_expanded() {
                Some(
                    Line {
                        from: crate::canvas::spec_filled(
                            self.line_point_a,
                            crate::canvas::spec_center(),
                        ),
                        to: crate::canvas::spec_filled(
                            self.line_point_b,
                            crate::canvas::spec_center(),
                        ),
                        width: self.line_width,
                    },
                )
            } else {
                None
            },
            children: self.spec_shown(),
            refresh: Refresh::spec_partial(self.partial_refresh_rect),
        }
    }

    /// Whether `after` is this toolbar once it has said what is to be drawn
    /// of it, and `drawing` what it has said. A toolbar of which nothing is
    /// to be drawn says nothing and stays as it is. Else the toolbar counts
    /// as drawn, remembers how it was folded, and the buttons that are shown
    /// are marked as to be drawn again.
    pub open spec fn spec_drawn(&self, after: &AppToolbar, drawing: Option<ToolbarDrawing>) -> bool {
        if !self.spec_needs_draw() {
            drawing is None && *after == *self
        } else {
            &&& drawing == Some(self.spec_drawing())
            &&& self.same_frame(after)
            &&& after.drawn
            &&& after.last_expand == self.children@[0].selected
            &&& forall|i: int|
                0 <= i < self.children@.len() ==> #[trigger] after.children@[i] == if i
                    < self.spec_shown() {
                    AppButton { drawn: false, ..self.children@[i] }
                } else {
                    self.children@[i]
                }
        }
    }

    /// Whether the toolbar has its five buttons, each with what its style
    /// shows.
    pub fn check(&self) -> (ok: bool)
        ensures
            ok == self.wf(),
    {
        if self.children.len() != TOOLBAR_BUTTONS {
            return false;
        }
        let mut i: usize = 0;
        while i < self.children.len()
            invariant
                i <= self.children@.len(),
                self.children@.len() == TOOLBAR_BUTTONS,
                forall|k: int| 0 <= k < i ==> (#[trigger] self.children@[k]).wf(),
            decreases self.children@.len() - i,
        {
            if !self.children[i].check() {
                return false;
            }
            i += 1;
        }
        true
    }

    /// The toolbar as new: folded out, nothing drawn, nothing pressed.
    pub fn new() -> (toolbar: AppToolbar)
        ensures
            toolbar.wf(),
            !toolbar.drawn,
            toolbar.last_expand == 0,
            toolbar.line_width == 2,
            toolbar.line_point_a == (OptPoint { x: Some(0i32), y: Some(APP_TOOLBAR_HEIGHT) }),
            toolbar.line_point_b == (OptPoint {
                x: Some(APP_TOOLBAR_WIDTH),
                y: Some(APP_TOOLBAR_HEIGHT),
            }),
            toolbar.partial_refresh_rect == (Rect { top: 0, left: 0, width: 1404, height: 58 }),
            is_title_button(toolbar.children@[0]),
            is_icon_button(toolbar.children@[1], Icon::Save, 592, PressHandler::Save),
            is_icon_button(toolbar.children@[2], Icon::Clear, 792, PressHandler::Clear),
            is_icon_button(toolbar.children@[3], Icon::Exit, 1356, PressHandler::Exit),
            is_brushes_button(toolbar.children@[4]),
            toolbar.spec_expanded(),
    {
        let mut children: Vec<AppButton> = Vec::new();
        children.push(title_button());
        children.push(save_button());
        children.push(clear_button());
        children.push(exit_button());
        children.push(brushes_button());
        AppToolbar {
            drawn: false,
            last_expand: 0,
            line_width: 2,
            line_point_a: OptPoint { x: Some(0), y: Some(APP_TOOLBAR_HEIGHT) },
            line_point_b: OptPoint { x: Some(APP_TOOLBAR_WIDTH), y: Some(APP_TOOLBAR_HEIGHT) },
            partial_refresh_rect: Rect {
                top: 0,
                left: 0,
                width: APP_TOOLBAR_WIDTH as u32,
                height: APP_TOOLBAR_HEIGHT as u32,
            },
            children,
        }
    }

    /// Acts on the pending presses of the buttons, one after the other, and
    /// returns what they have set off. A press that ends the application is
    /// the last one acted on: the buttons after it keep their presses.
    pub fn update(&mut self) -> (ran: Vec<PressHandler>)
        requires
            old(self).wf(),
        ensures
            final(self).wf(),
            ran@ == spec_pending(old(self).children@, 0),
            old(self).spec_updated(final(self)),
    {
        let mut ran: Vec<PressHandler> = Vec::new();
        let ghost before = self.children@;
        let mut i: usize = 0;
        while i < self.children.len()
            invariant
                i <= TOOLBAR_BUTTONS,
                before == old(self).children@,
                before.len() == TOOLBAR_BUTTONS,
                self.children@.len() == TOOLBAR_BUTTONS,
                forall|k: int| 0 <= k < TOOLBAR_BUTTONS ==> (#[trigger] self.children@[k]).wf(),
                forall|k: int| 0 <= k < i ==> #[trigger] self.children@[k] == before[k].spec_updated(),
                forall|k: int| i <= k < TOOLBAR_BUTTONS ==> #[trigger] self.children@[k] == before[k],
                ran@ + spec_pending(before, i as int) == spec_pending(before, 0),
                spec_stop(before, i as int) == spec_stop(before, 0),
                self.drawn == old(self).drawn,
                self.last_expand == old(self).last_expand,
                self.line_point_a == old(self).line_point_a,
                self.line_point_b == old(self).line_point_b,
                self.line_width == old(self).line_width,
                self.partial_refresh_rect == old(self).partial_refresh_rect,
            decreases TOOLBAR_BUTTONS - i,
        {
            let next = self.children[i].update();
            if let Some(handler) = next {
                let ghost so_far = ran@;
                ran.push(handler);
                if let PressHandler::Exit = handler {
                    assert(spec_pending(before, i as int) =~= seq![PressHandler::Exit]);
                    assert(spec_stop(before, i as int) == i);
                    assert(ran@ =~= so_far + seq![PressHandler::Exit]);
                    return ran;
                }
                assert(ran@ + spec_pending(before, i + 1) =~= so_far + (seq![handler]
                    + spec_pending(before, i + 1)));
            }
            i += 1;
        }
        assert(ran@ + Seq::<PressHandler>::empty() =~= ran@);
        ran
    }

    /// Says what is to be drawn of the toolbar, and marks it as drawn. The
    /// buttons that are to be drawn are marked as to be drawn again, so that
    /// each says what is to be drawn of it when asked.
    pub fn draw(&mut self) -> (drawing: Option<ToolbarDrawing>)
        requires
            old(self).wf(),
        ensures
            final(self).wf(),
            old(self).spec_drawn(final(self), drawing),
    {
        let expanded = self.children[0].selected == 0;
        let toggled = self.children[0].selected != self.last_expand;
        let mut draw_children = false;
        let mut i: usize = 0;
        while i < self.children.len()
            invariant
                i <= self.children@.len(),
                draw_children == exists|k: int| 0 <= k < i && !(#[trigger] self.children@[k]).drawn,
            decreases self.children@.len() - i,
        {
            if self.children[i].needs_draw() {
                draw_children = true;
            }
            i += 1;
        }
        let needs_draw = !self.drawn || toggled || draw_children;
        if !needs_draw {
            return None;
        }
        self.last_expand = self.children[0].selected;
        self.drawn = true;

        let line = if expanded {
            Some(
                Line {
                    from: centered_point(self.line_point_a),
                    to: centered_point(self.line_point_b),
                    width: self.line_width,
                },
            )
        } else {
            None
        };
        let shown: usize = if expanded {
            TOOLBAR_BUTTONS
        } else {
            1
        };
        let ghost before = self.children@;
        let mut index: usize = 0;
        while index < shown
            invariant
                index <= shown <= TOOLBAR_BUTTONS,
                before.len() == TOOLBAR_BUTTONS,
                self.children@.len() == TOOLBAR_BUTTONS,
                forall|k: int| 0 <= k < TOOLBAR_BUTTONS ==> (#[trigger] before[k]).wf(),
                forall|k: int|
                    0 <= k < index ==> #[trigger] self.children@[k] == (AppButton {
                        drawn: false,
                        ..before[k]
                    }),
                forall|k: int| index <= k < TOOLBAR_BUTTONS ==> #[trigger] self.children@[k] == before[k],
                self.drawn,
                self.last_expand == before[0].selected,
                self.line_point_a == old(self).line_point_a,
                self.line_point_b == old(self).line_point_b,
                self.line_width == old(self).line_width,
                self.partial_refresh_rect == old(self).partial_refresh_rect,
            decreases shown - index,
        {
            self.children[index].reset_drawn();
            index += 1;
        }
        Some(
            ToolbarDrawing {
                line,
                children: shown,
                refresh: Refresh::update_partial(&self.partial_refresh_rect),
            },
        )
    }

    /// Takes a touch event: every button is told of it.
    pub fn on_input(&mut self, event: TouchEvent)
        requires
            old(self).wf(),
        ensures
            final(self).wf(),
            old(self).spec_touched(final(self), event),
    {
        let ghost before = self.children@;
        let mut i: usize = 0;
        while i < self.children.len()
            invariant
                i <= TOOLBAR_BUTTONS,
                before.len() == TOOLBAR_BUTTONS,
                self.children@.len() == TOOLBAR_BUTTONS,
                forall|k: int| 0 <= k < TOOLBAR_BUTTONS ==> (#[trigger] self.children@[k]).wf(),
                forall|k: int|
                    0 <= k < i ==> #[trigger] self.children@[k] == before[k].spec_touched(event),
                forall|k: int| i <= k < TOOLBAR_BUTTONS ==> #[trigger] self.children@[k] == before[k],
                self.drawn == old(self).drawn,
                self.last_expand == old(self).last_expand,
                self.line_point_a == old(self).line_point_a,
                self.line_point_b == old(self).line_point_b,
                self.line_width == old(self).line_width,
                self.partial_refresh_rect == old(self).partial_refresh_rect,
            decreases TOOLBAR_BUTTONS - i,
        {
            self.children[i].on_input(event);
            i += 1;
        }
    }
}

/// Whether `button` is the toolbar's title, as new.
pub open spec fn is_title_button(button: AppButton) -> bool {
    &&& button.wf()
    &&& !button.drawn
    &&& !button.pressed
    &&& !button.show_options
    &&& button.selected == 0
    &&& button.hitbox is None
    &&& button.text is None
    &&& button.image is None
    &&& button.point == (OptPoint { x: Some(8i32), y: Some(50i32) })
    &&& button.weight == 50
    &&& button.style == ButtonStyle::Toggle
    &&& button.options matches Some(options)
    &&& reads(options@, spec_title_options())
    &&& button.on_press == PressHandler::Title
}

/// Whether `button` is the toolbar's menu of brushes, as new.
pub open spec fn is_brushes_button(button: AppButton) -> bool {
    &&& button.wf()
    &&& !button.drawn
    &&& !button.pressed
    &&& !button.show_options
    &&& button.selected == 0
    &&& button.hitbox is None
    &&& button.text is None
    &&& button.image == Some(Icon::Down)
    &&& button.point == (OptPoint { x: Some(644i32), y: Some(32i32) })
    &&& button.weight == 25
    &&& button.style == ButtonStyle::DropDown
    &&& button.options matches Some(options)
    &&& reads(options@, spec_brush_options())
    &&& button.on_press == PressHandler::Brushes
}

/// The exit button: at the toolbar's right end.
pub fn exit_button() -> (button: AppButton)
    ensures
        is_icon_button(button, Icon::Exit, DISPLAY_WIDTH - 48, PressHandler::Exit),
{
    AppButton::new(
        None,
        Some(Asset::get_icon_exit()),
        OptPoint { x: Some((DISPLAY_WIDTH as i32) - 48), y: Some(16) },
        25,
        ButtonStyle::Image,
        None,
        PressHandler::Exit,
    )
}

/// The save button: left of the toolbar's centre.
pub fn save_button() -> (button: AppButton)
    ensures
        is_icon_button(button, Icon::Save, DISPLAY_WIDTH / 2 - 110, PressHandler::Save),
{
    AppButton::new(
        None,
        Some(Asset::get_icon_save()),
        OptPoint { x: Some(offset_center(-110)), y: Some(16) },
        25,
        ButtonStyle::Image,
        None,
        PressHandler::Save,
    )
}

/// The clear button: right of the toolbar's centre.
pub fn clear_button() -> (button: AppButton)
    ensures
        is_icon_button(button, Icon::Clear, DISPLAY_WIDTH / 2 + 90, PressHandler::Clear),
{
    AppButton::new(
        None,
        Some(Asset::get_icon_clear()),
        OptPoint { x: Some(offset_center(90)), y: Some(16) },
        25,
        ButtonStyle::Image,
        None,
        PressHandler::Clear,
    )
}

/// The title: at the toolbar's left end. A press on it folds the toolbar.
pub fn title_button() -> (button: AppButton)
    ensures
        is_title_button(button),
{
    let mut options: Vec<String> = Vec::new();
    options.push("Harmonizers".to_owned());
    options.push("H >".to_owned());
    AppButton::new(
        None,
        None,
        OptPoint { x: Some(8), y: Some(50) },
        50,
        ButtonStyle::Toggle,
        Some(options),
        PressHandler::Title,
    )
}

/// The menu of brushes: between the save button and the centre.
pub fn brushes_button() -> (button: AppButton)
    ensures
        is_brushes_button(button),
{
    let mut options: Vec<String> = Vec::new();
    options.push("SKETCHY".to_owned());
    options.push("SHADED".to_owned());
    options.push("CHROME".to_owned());
    options.push("FUR".to_owned());
    options.push("LONGFUR".to_owned());
    options.push("WEB".to_owned());
    options.push("".to_owned());
    options.push("SIMPLE".to_owned());
    options.push("SQUARES".to_owned());
    options.push("RIBBON".to_owned());
    options.push("".to_owned());
    options.push("CIRCLES".to_owned());
    options.push("GRID".to_owned());
    AppButton::new(
        None,
        Some(Asset::get_icon_down()),
        OptPoint { x: Some(offset_center(-58)), y: Some(32) },
        25,
        ButtonStyle::DropDown,
        Some(options),
        PressHandler::Brushes,
    )
}

/// The horizontal centre of the display, moved by `offset` pixels.
pub fn offset_center(offset: i32) -> (center: i32)
    requires
        i32::MIN <= DISPLAY_WIDTH / 2 + offset <= i32::MAX,
    ensures
        center == DISPLAY_WIDTH / 2 + offset,
{
    let center: i32 = ((DISPLAY_WIDTH / 2) as i32) + offset;
    center
}

} // verus!
