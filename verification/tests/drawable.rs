use harmonizers::drawable::toolbar::{
    brushes_button, clear_button, exit_button, offset_center, save_button, title_button,
    ToolbarDrawing,
};
use harmonizers::canvas::Line;
use harmonizers::drawable::{
    AppButton, AppChrome, AppSurface, AppToolbar, Asset, ButtonDrawing, ButtonStyle, PressHandler,
};
use harmonizers::geometry::{OptPoint, Point, Rect};
use harmonizers::input::TouchEvent;
use harmonizers::refresh::{Dither, Refresh, Waveform};
use harmonizers::widget::Icon;

fn rect(top: u32, left: u32, width: u32, height: u32) -> Rect {
    Rect { top, left, width, height }
}

fn partial(region: Rect) -> Refresh {
    Refresh {
        region: Some(region),
        waveform: Waveform::Glr16,
        dither: Dither::Passthrough,
        quant_bit: 0,
        wait: false,
    }
}

fn text_button(style: ButtonStyle) -> AppButton {
    AppButton::new(Some("OK"), None, OptPoint::at(5, 6), 25, style, None, PressHandler::Save)
}

#[test]
fn assets_are_the_toolbar_icons() {
    assert_eq!(Asset::get_icon_save(), Icon::Save);
    assert_eq!(Asset::get_icon_exit(), Icon::Exit);
    assert_eq!(Asset::get_icon_clear(), Icon::Clear);
    assert_eq!(Asset::get_icon_down(), Icon::Down);
    assert_eq!(Icon::Save.file_name(), "save.png");
    assert_eq!(Icon::KebabOn.file_name(), "kebab-on.png");
    assert_eq!(Icon::TouchOff.file_name(), "touch-off.png");
}

#[test]
fn surface_begins_below_the_toolbar() {
    let surface = AppSurface::new();
    assert_eq!(surface.partial_refresh_rect, rect(59, 0, 1404, 1345));
}

#[test]
fn refreshes_have_their_settings() {
    assert_eq!(Refresh::update_partial(&rect(1, 2, 3, 4)), partial(rect(1, 2, 3, 4)));
    assert_eq!(
        Refresh::update_partial_mono(&rect(1, 2, 3, 4)),
        Refresh { waveform: Waveform::Du, ..partial(rect(1, 2, 3, 4)) }
    );
    assert_eq!(
        Refresh::update_full(),
        Refresh {
            region: None,
            waveform: Waveform::Gc16,
            dither: Dither::RemarkableDither,
            quant_bit: 0,
            wait: true,
        }
    );
    assert_eq!(
        Refresh::stroke(&rect(1, 2, 3, 4)),
        Refresh {
            region: Some(rect(1, 2, 3, 4)),
            waveform: Waveform::Du,
            dither: Dither::Exp1,
            quant_bit: 0x7614_3b24,
            wait: false,
        }
    );
    assert_eq!(Refresh::touch(&rect(1, 2, 3, 4)).dither, Dither::Alpha);
    assert_eq!(Refresh::touch(&rect(1, 2, 3, 4)).waveform, Waveform::Du);
    assert_eq!(Refresh::cleared(&rect(1, 2, 3, 4)).waveform, Waveform::Init);
    assert_eq!(Refresh::cleared(&rect(1, 2, 3, 4)).dither, Dither::Exp1);
    assert_eq!(Refresh::image(&rect(1, 2, 3, 4)).waveform, Waveform::Gc16Fast);
    assert_eq!(Refresh::image(&rect(1, 2, 3, 4)).quant_bit, 0);
}

#[test]
fn new_button_is_neither_drawn_nor_pressed() {
    let button = text_button(ButtonStyle::Rect);
    assert!(button.needs_draw());
    assert!(!button.pressed && !button.show_options);
    assert_eq!(button.selected, 0);
    assert_eq!(button.hitbox, None);
    assert_eq!(button.label(), "OK");
    let bare = AppButton::new(None, None, OptPoint::at(0, 0), 1, ButtonStyle::Round, None, PressHandler::Clear);
    assert_eq!(bare.label(), "");
}

#[test]
fn button_is_drawn_once_until_reset() {
    let mut button = text_button(ButtonStyle::Rect);
    assert_eq!(button.draw(), Some(ButtonDrawing::Rect { gap: 6 }));
    assert!(!button.needs_draw());
    assert_eq!(button.draw(), None);
    button.reset_drawn();
    assert_eq!(button.draw(), Some(ButtonDrawing::Rect { gap: 6 }));
}

#[test]
fn button_is_drawn_in_its_style() {
    assert_eq!(text_button(ButtonStyle::RectDark).draw(), Some(ButtonDrawing::RectDark { gap: 6 }));
    assert_eq!(text_button(ButtonStyle::Round).draw(), Some(ButtonDrawing::Round));
    assert_eq!(text_button(ButtonStyle::RoundDark).draw(), Some(ButtonDrawing::RoundDark));
    assert_eq!(exit_button().draw(), Some(ButtonDrawing::Image { icon: Icon::Exit }));
    assert_eq!(title_button().draw(), Some(ButtonDrawing::Toggle { option: 0 }));
    assert_eq!(
        brushes_button().draw(),
        Some(ButtonDrawing::DropDown { open: false, selected: 0, gap: 6 })
    );
}

#[test]
fn finger_down_on_the_hitbox_presses_the_button() {
    let mut button = save_button();
    // Without a hitbox nothing can be hit.
    button.on_input(TouchEvent::Press { x: 600, y: 20 });
    assert!(!button.pressed);
    assert_eq!(button.set_hitbox(rect(16, 592, 60, 60)), vec![partial(rect(16, 592, 60, 60))]);
    button.on_input(TouchEvent::Move { x: 600, y: 20 });
    button.on_input(TouchEvent::Release { x: 600, y: 20 });
    button.on_input(TouchEvent::Press { x: 652, y: 20 });
    button.on_input(TouchEvent::Press { x: 600, y: 76 });
    assert!(!button.pressed);
    button.on_input(TouchEvent::Press { x: 651, y: 75 });
    assert!(button.pressed);
    assert_eq!(button.update(), Some(PressHandler::Save));
    assert!(!button.pressed);
    assert_eq!(button.update(), None);
}

#[test]
fn press_on_the_title_folds_its_selection() {
    let mut title = title_button();
    title.draw();
    title.pressed = true;
    assert_eq!(title.update(), Some(PressHandler::Title));
    assert_eq!(title.selected, 1);
    assert!(title.needs_draw());
    assert_eq!(title.draw(), Some(ButtonDrawing::Toggle { option: 1 }));
    title.pressed = true;
    assert_eq!(title.update(), Some(PressHandler::Title));
    assert_eq!(title.selected, 0);
}

#[test]
fn press_on_the_brushes_opens_and_closes_the_menu() {
    let mut brushes = brushes_button();
    brushes.draw();
    brushes.pressed = true;
    assert_eq!(brushes.update(), Some(PressHandler::Brushes));
    assert!(brushes.show_options);
    assert_eq!(brushes.draw(), Some(ButtonDrawing::DropDown { open: true, selected: 0, gap: 6 }));
    brushes.pressed = true;
    brushes.update();
    assert!(!brushes.show_options);
    assert!(brushes.needs_draw());
}

#[test]
fn menu_refreshes_the_higher_of_its_old_and_new_region_first() {
    let closed = rect(14, 644, 178, 36);
    let open = rect(14, 644, 178, 400);
    let mut brushes = brushes_button();
    assert_eq!(brushes.set_hitbox(closed), vec![partial(closed), partial(closed)]);
    assert_eq!(brushes.set_hitbox(open), vec![partial(open), partial(open)]);
    assert_eq!(brushes.set_hitbox(closed), vec![partial(open), partial(closed)]);
    assert_eq!(brushes.hitbox, Some(closed));
}

#[test]
fn toolbar_buttons_stand_in_their_places() {
    assert_eq!(offset_center(-110), 592);
    assert_eq!(offset_center(90), 792);
    assert_eq!(offset_center(0), 702);
    assert_eq!(title_button().point, OptPoint::at(8, 50));
    assert_eq!(title_button().weight, 50);
    assert_eq!(title_button().options, Some(vec!["Harmonizers".to_string(), "H >".to_string()]));
    assert_eq!(save_button().point, OptPoint::at(592, 16));
    assert_eq!(save_button().image, Some(Icon::Save));
    assert_eq!(clear_button().point, OptPoint::at(792, 16));
    assert_eq!(clear_button().on_press, PressHandler::Clear);
    assert_eq!(exit_button().point, OptPoint::at(1356, 16));
    assert_eq!(exit_button().style, ButtonStyle::Image);
    let brushes = brushes_button();
    assert_eq!(brushes.point, OptPoint::at(644, 32));
    assert_eq!(brushes.weight, 25);
    assert_eq!(brushes.image, Some(Icon::Down));
    let options = brushes.options.unwrap();
    assert_eq!(
        options,
        vec![
            "SKETCHY", "SHADED", "CHROME", "FUR", "LONGFUR", "WEB", "", "SIMPLE", "SQUARES",
            "RIBBON", "", "CIRCLES", "GRID"
        ]
    );
}

#[test]
fn new_toolbar_has_the_title_and_four_buttons() {
    let toolbar = AppToolbar::new();
    assert_eq!(toolbar.children.len(), 5);
    let handlers: Vec<PressHandler> = toolbar.children.iter().map(|c| c.on_press).collect();
    assert_eq!(
        handlers,
        vec![
            PressHandler::Title,
            PressHandler::Save,
            PressHandler::Clear,
            PressHandler::Exit,
            PressHandler::Brushes
        ]
    );
    assert_eq!(toolbar.partial_refresh_rect, rect(0, 0, 1404, 58));
    assert_eq!(toolbar.line_width, 2);
    assert!(!toolbar.drawn);
}

#[test]
fn unfolded_toolbar_draws_its_line_and_all_buttons() {
    let mut toolbar = AppToolbar::new();
    let drawing = toolbar.draw();
    assert_eq!(
        drawing,
        Some(ToolbarDrawing {
            line: Some(Line { from: Point { x: 0, y: 58 }, to: Point { x: 1404, y: 58 }, width: 2 }),
            children: 5,
            refresh: partial(rect(0, 0, 1404, 58)),
        })
    );
    assert!(toolbar.drawn);
    for child in toolbar.children.iter_mut() {
        assert!(child.draw().is_some());
    }
    assert_eq!(toolbar.draw(), None);
}

#[test]
fn folded_toolbar_draws_the_title_alone() {
    let mut toolbar = AppToolbar::new();
    toolbar.draw();
    for child in toolbar.children.iter_mut() {
        child.draw();
        child.set_hitbox(rect(0, 0, 1, 1));
    }
    toolbar.children[0].set_hitbox(rect(10, 8, 200, 40));
    toolbar.on_input(TouchEvent::Press { x: 20, y: 20 });
    assert!(toolbar.children[0].pressed);
    assert!(!toolbar.children[1].pressed);
    assert_eq!(toolbar.update(), vec![PressHandler::Title]);
    assert_eq!(toolbar.children[0].selected, 1);
    let drawing = toolbar.draw().unwrap();
    assert_eq!(drawing.line, None);
    assert_eq!(drawing.children, 1);
    assert_eq!(toolbar.last_expand, 1);
    assert!(toolbar.children[0].needs_draw());
    assert!(!toolbar.children[1].needs_draw());
}

#[test]
fn presses_are_acted_on_in_order_up_to_the_exit() {
    let mut toolbar = AppToolbar::new();
    toolbar.children[1].pressed = true;
    toolbar.children[2].pressed = true;
    toolbar.children[3].pressed = true;
    toolbar.children[4].pressed = true;
    assert_eq!(
        toolbar.update(),
        vec![PressHandler::Save, PressHandler::Clear, PressHandler::Exit]
    );
    assert!(!toolbar.children[1].pressed);
    assert!(!toolbar.children[3].pressed);
    // The menu of brushes comes after the exit button and keeps its press.
    assert!(toolbar.children[4].pressed);
    assert!(!toolbar.children[4].show_options);
    assert_eq!(toolbar.update(), vec![PressHandler::Brushes]);
    assert!(toolbar.children[4].show_options);
    assert_eq!(toolbar.update(), vec![]);
}

#[test]
fn chrome_hands_everything_to_its_toolbar() {
    let mut chrome = AppChrome::new();
    assert_eq!(chrome.surface.partial_refresh_rect, rect(59, 0, 1404, 1345));
    assert_eq!(chrome.draw().unwrap().children, 5);
    chrome.toolbar.children[2].set_hitbox(rect(16, 792, 60, 60));
    chrome.on_input(TouchEvent::Press { x: 800, y: 20 });
    assert_eq!(chrome.update(), vec![PressHandler::Clear]);
    assert_eq!(chrome.update(), vec![]);
}

#[test]
fn buttons_are_checked_for_what_their_style_shows() {
    assert!(title_button().check());
    assert!(brushes_button().check());
    assert!(exit_button().check());
    assert!(text_button(ButtonStyle::Round).check());
    let mut lacking = title_button();
    lacking.selected = 2;
    assert!(!lacking.check());
    lacking.selected = 1;
    assert!(lacking.check());
    lacking.options = Some(vec!["one".to_string()]);
    lacking.selected = 0;
    assert!(!lacking.check());
    lacking.on_press = PressHandler::Save;
    assert!(lacking.check());
    lacking.options = None;
    assert!(!lacking.check());
    let mut blind = exit_button();
    blind.image = None;
    assert!(!blind.check());
    let mut wide = exit_button();
    wide.hitbox = Some(rect(0, u32::MAX, 1, 0));
    assert!(!wide.check());
    let mut toolbar = AppToolbar::new();
    assert!(toolbar.check());
    toolbar.children[4].options = None;
    assert!(!toolbar.check());
    toolbar.children.pop();
    assert!(!toolbar.check());
}
