use harmonizers::geometry::{Point, Rect, Size};
use harmonizers::layout::canvas::{canvas_region, create as create_canvas};
use harmonizers::layout::kebab::{create as create_kebab, get_kebab_image, get_kebab_region};
use harmonizers::layout::logo::create as create_logo;
use harmonizers::layout::toolbox::{
    is_toolbox_open, on_hide, on_show, toggle_toolbox, toolbox_button, toolbox_dropdown, Toolbox,
    ToolboxChange,
};
use harmonizers::layout::toolbox_button::create_toolbox_button;
use harmonizers::layout::toolbox_buttons::{
    create_refresh_button, create_touch_toggle, create_undo_button, get_touch_image,
    on_refresh_tapped, on_touch_toggle,
};
use harmonizers::layout::toolbox_dropdown::{create_toolbox_dropdown, DROPDOWN_ELEMENT_COUNT};
use harmonizers::layout::toolbox_dropdowns::{
    create_brush_color_dropdown, create_brush_shape_dropdown, create_brush_size_dropdown,
    create_brush_type_dropdown, create_layers_dropdown,
};
use harmonizers::layout::toolbox_items::ToolboxItem;
use harmonizers::layout::toolbox_panel::{
    create as create_panel, get_toolbox_panel_point, get_toolbox_panel_region,
    get_toolbox_panel_size,
};
use harmonizers::layout::touch::{create as create_touch, get_image};
use harmonizers::layout::{check_clearable, clear_region, init, AppElement};
use harmonizers::refresh::{Dither, Refresh, Waveform, DRAWING_QUANT_BIT};
use harmonizers::stroke::Ink;
use harmonizers::widget::{ClickHandler, Icon, RefreshPolicy, Widget, WidgetKind};
use harmonizers::{
    APP_BUTTON_SPACE_H, APP_BUTTON_SPACE_V, APP_BUTTON_WIDTH_HALF, APP_DROPDOWN_TOP,
    DISPLAY_EDGE_RIGHT, DISPLAY_HEIGHT, DISPLAY_WIDTH,
};

fn image_of(w: &Widget) -> Icon {
    match w.inner {
        WidgetKind::Image { img } => img,
        _ => panic!("an image was expected"),
    }
}

fn region_of(w: &Widget) -> (Size, Ink, u32) {
    match w.inner {
        WidgetKind::Region { size, border_color, border_px } => (size, border_color, border_px),
        _ => panic!("a region was expected"),
    }
}

#[test]
fn display_is_the_one_of_the_driver() {
    assert_eq!(DISPLAY_WIDTH, libremarkable::dimensions::DISPLAYWIDTH);
    assert_eq!(DISPLAY_HEIGHT, libremarkable::dimensions::DISPLAYHEIGHT);
    assert_eq!(DRAWING_QUANT_BIT, libremarkable::framebuffer::common::DRAWING_QUANT_BIT);
    assert_eq!((DISPLAY_WIDTH, DISPLAY_HEIGHT, DISPLAY_EDGE_RIGHT), (1404, 1872, 1404));
}

#[test]
fn button_spacing_is_a_button_and_two_gaps() {
    assert_eq!(APP_BUTTON_SPACE_H, 52);
    assert_eq!(APP_BUTTON_SPACE_V, 52);
    assert_eq!(APP_BUTTON_WIDTH_HALF, 16);
    assert_eq!(APP_DROPDOWN_TOP, 172);
}

#[test]
fn canvas_takes_the_whole_display() {
    assert_eq!(canvas_region(), Rect { top: 0, left: 0, width: 1404, height: 1872 });
    let frame = create_canvas();
    assert_eq!(frame.position, Point { x: 0, y: -2 });
    assert_eq!(region_of(&frame), (Size { width: 1405, height: 1875 }, Ink::Black, 2));
    assert_eq!(frame.refresh, RefreshPolicy::RefreshAndWait);
    assert_eq!(frame.onclick, None);
}

#[test]
fn kebab_sits_in_the_upper_right_corner() {
    assert_eq!(get_kebab_region(), Rect { top: 18, left: 1352, width: 32, height: 32 });
    let closed = create_kebab(false);
    assert_eq!(closed.position, Point { x: 1352, y: 18 });
    assert_eq!(closed.onclick, Some(ClickHandler::ToggleToolbox));
    assert_eq!(closed.refresh, RefreshPolicy::Refresh);
    assert_eq!(image_of(&closed), Icon::KebabOff);
    assert_eq!(image_of(&create_kebab(true)), Icon::KebabOn);
    assert_eq!(get_kebab_image(true), Icon::KebabOn);
    assert_eq!(get_kebab_image(false), Icon::KebabOff);
}

#[test]
fn scene_starts_with_the_kebab_alone() {
    let scene = init(&Toolbox::new());
    assert_eq!(scene.len(), 1);
    assert_eq!(scene[0].0, "Kebab");
    assert_eq!(scene[0].1.position, Point { x: 1352, y: 18 });
    assert_eq!(image_of(&scene[0].1), Icon::KebabOff);
    assert_eq!(AppElement::Kebab.name(), "Kebab");
}

#[test]
fn logo_reads_the_name_of_the_application() {
    let logo = create_logo();
    assert_eq!(logo.position, Point { x: 1114, y: 44 });
    assert_eq!(logo.onclick, None);
    match logo.inner {
        WidgetKind::Text { text, scale, foreground, border_px } => {
            assert_eq!(text, "HarmonizeRs");
            assert_eq!(scale, 35);
            assert_eq!(foreground, Ink::Black);
            assert_eq!(border_px, 0);
        }
        _ => panic!("a text was expected"),
    }
}

#[test]
fn panel_sits_in_the_upper_right_corner() {
    assert_eq!(get_toolbox_panel_point(), Point { x: 1104, y: 0 });
    assert_eq!(get_toolbox_panel_size(), Size { width: 300, height: 450 });
    assert_eq!(get_toolbox_panel_region(), Rect { top: 0, left: 1104, width: 300, height: 450 });
    let panel = create_panel();
    assert_eq!(panel.position, Point { x: 1104, y: 0 });
    assert_eq!(region_of(&panel), (Size { width: 300, height: 450 }, Ink::Black, 2));
}

#[test]
fn grid_runs_leftwards_and_downwards() {
    let at = |col, row| create_toolbox_button(WidgetKind::Unspecified, None, col, row).position;
    assert_eq!(at(0, 0), Point { x: 1339, y: 78 });
    assert_eq!(at(1, 0), Point { x: 1287, y: 78 });
    assert_eq!(at(4, 1), Point { x: 1131, y: 130 });
    assert_eq!(at(25, 0), Point { x: 39, y: 78 });
    assert_eq!(at(0, 1258), Point { x: 1339, y: 65494 });
}

#[test]
fn buttons_show_their_images_and_handlers() {
    let undo = create_undo_button(0, 0);
    assert_eq!(image_of(&undo), Icon::Undo);
    assert_eq!(undo.onclick, None);
    assert_eq!(undo.refresh, RefreshPolicy::RefreshAndWait);
    let refresh = create_refresh_button(3, 0);
    assert_eq!(image_of(&refresh), Icon::Refresh);
    assert_eq!(refresh.onclick, Some(ClickHandler::RefreshTapped));
    let touch = create_touch_toggle(true, 2, 0);
    assert_eq!(image_of(&touch), Icon::TouchOn);
    assert_eq!(touch.onclick, Some(ClickHandler::TouchToggle));
    assert_eq!(image_of(&create_touch_toggle(false, 2, 0)), Icon::TouchOff);
    assert_eq!(get_touch_image(true), Icon::TouchOn);
}

#[test]
fn touch_toggle_switches_and_shows_the_new_state() {
    assert_eq!(on_touch_toggle(true), (false, Icon::TouchOff));
    assert_eq!(on_touch_toggle(false), (true, Icon::TouchOn));
    assert_eq!(get_image(true), (false, Icon::TouchOff));
    assert_eq!(get_image(false), (true, Icon::TouchOn));
    let (button, active) = create_touch(false);
    assert!(active);
    assert_eq!(button.position, Point { x: 1152, y: 130 });
    assert_eq!(image_of(&button), Icon::TouchOn);
    assert_eq!(button.onclick, Some(ClickHandler::TouchSwitch));
}

#[test]
fn refresh_tap_refreshes_everything_and_waits() {
    assert_eq!(
        on_refresh_tapped(),
        Refresh {
            region: None,
            waveform: Waveform::Gc16,
            dither: Dither::Drawing,
            quant_bit: 0x7614_3b24,
            wait: true,
        }
    );
}

#[test]
fn dropdown_is_a_box_with_an_arrow() {
    assert_eq!(DROPDOWN_ELEMENT_COUNT, 2);
    let parts = create_toolbox_dropdown(WidgetKind::Unspecified, None, 0);
    assert_eq!(parts.len(), 2);
    assert_eq!(parts[0].position, Point { x: 1131, y: 182 });
    assert_eq!(region_of(&parts[0]), (Size { width: 240, height: 32 }, Ink::Black, 2));
    assert_eq!(parts[1].position, Point { x: 1341, y: 192 });
    assert_eq!(image_of(&parts[1]), Icon::Down);
    let third = create_toolbox_dropdown(WidgetKind::Unspecified, None, 2);
    assert_eq!(third[0].position, Point { x: 1131, y: 286 });
    assert_eq!(third[1].position, Point { x: 1341, y: 296 });
}

#[test]
fn all_dropdowns_look_alike() {
    let expected = Point { x: 1131, y: 234 };
    assert_eq!(create_brush_type_dropdown(1)[0].position, expected);
    assert_eq!(create_brush_size_dropdown(1)[0].position, expected);
    assert_eq!(create_brush_color_dropdown(1)[0].position, expected);
    assert_eq!(create_brush_shape_dropdown(1)[0].position, expected);
    assert_eq!(create_layers_dropdown(1)[0].position, expected);
    assert_eq!(ToolboxItem::Layers.create_compound(1)[1].position, Point { x: 1341, y: 244 });
}

#[test]
fn toolbox_items_have_their_names() {
    let names = [
        (ToolboxItem::Panel, "Panel"),
        (ToolboxItem::Logo, "Logo"),
        (ToolboxItem::Clear, "Clear"),
        (ToolboxItem::Orientation, "Orientation"),
        (ToolboxItem::Refresh, "Refresh"),
        (ToolboxItem::Touch, "Touch"),
        (ToolboxItem::New, "New"),
        (ToolboxItem::Open, "Open"),
        (ToolboxItem::Save, "Save"),
        (ToolboxItem::Delete, "Delete"),
        (ToolboxItem::Undo, "Undo"),
        (ToolboxItem::Redo, "Redo"),
        (ToolboxItem::BrushType, "BrushType"),
        (ToolboxItem::BrushSize, "BrushSize"),
        (ToolboxItem::BrushColor, "BrushColor"),
        (ToolboxItem::BrushShape, "BrushShape"),
        (ToolboxItem::Layers, "Layers"),
    ];
    for (item, name) in names {
        assert_eq!(item.name(), name);
        assert_eq!(item.name(), format!("{:?}", item));
    }
    assert!(ToolboxItem::Layers.compound());
    assert!(!ToolboxItem::Undo.compound());
    assert!(!ToolboxItem::Panel.compound());
}

#[test]
fn toolbox_items_create_their_widgets() {
    assert_eq!(image_of(&ToolboxItem::Delete.create(false, 4, 1)), Icon::Delete);
    assert_eq!(ToolboxItem::Delete.create(false, 4, 1).position, Point { x: 1131, y: 130 });
    assert_eq!(image_of(&ToolboxItem::Touch.create(true, 2, 0)), Icon::TouchOn);
    assert_eq!(ToolboxItem::Panel.create(false, 3, 1).position, Point { x: 1104, y: 0 });
    assert_eq!(ToolboxItem::Logo.create(false, 3, 1).position, Point { x: 1114, y: 44 });
    assert_eq!(toolbox_button(0, 0), ToolboxItem::Undo);
    assert_eq!(toolbox_button(1, 4), ToolboxItem::Delete);
    assert_eq!(toolbox_dropdown(2), ToolboxItem::BrushColor);
}

#[test]
fn open_toolbox_shows_panel_logo_buttons_and_menus() {
    let shown = on_show(false);
    let names: Vec<&str> = shown.iter().map(|(name, _)| name.as_str()).collect();
    assert_eq!(
        names,
        vec![
            "Panel", "Logo", "Undo", "Orientation", "Touch", "Refresh", "Clear", "Redo", "Save",
            "Open", "New", "Delete", "BrushType_0", "BrushType_1", "BrushSize_0", "BrushSize_1",
            "BrushColor_0", "BrushColor_1", "BrushShape_0", "BrushShape_1", "Layers_0", "Layers_1",
        ]
    );
    assert_eq!(shown[2].1.position, Point { x: 1339, y: 78 });
    assert_eq!(shown[6].1.position, Point { x: 1131, y: 78 });
    assert_eq!(shown[7].1.position, Point { x: 1339, y: 130 });
    assert_eq!(image_of(&shown[4].1), Icon::TouchOff);
    assert_eq!(image_of(&on_show(true)[4].1), Icon::TouchOn);
    assert_eq!(shown[12].1.position, Point { x: 1131, y: 182 });
    assert_eq!(shown[13].1.position, Point { x: 1341, y: 192 });
    assert_eq!(image_of(&shown[13].1), Icon::Down);
    assert_eq!(shown[20].1.position, Point { x: 1131, y: 390 });
    assert_eq!(shown[21].1.position, Point { x: 1341, y: 400 });
}

#[test]
fn closing_toolbox_removes_what_it_showed() {
    let hidden = on_hide();
    assert_eq!(
        hidden,
        vec![
            "Logo", "Delete", "New", "Open", "Save", "Redo", "Clear", "Refresh", "Touch",
            "Orientation", "Undo", "BrushType_0", "BrushType_1", "BrushSize_0", "BrushSize_1",
            "BrushColor_0", "BrushColor_1", "BrushShape_0", "BrushShape_1", "Layers_0", "Layers_1",
            "Panel",
        ]
    );
    let mut shown: Vec<String> = on_show(false).into_iter().map(|(name, _)| name).collect();
    let mut removed = hidden.clone();
    shown.sort();
    removed.sort();
    assert_eq!(shown, removed);
    // No name is used twice, so the scene takes every widget.
    shown.dedup();
    assert_eq!(shown.len(), 22);
}

#[test]
fn toolbox_opens_and_closes_in_turn() {
    let mut toolbox = Toolbox::new();
    assert!(!is_toolbox_open(&toolbox));
    match toggle_toolbox(&mut toolbox, true) {
        ToolboxChange::Shown { widgets, clear } => {
            assert_eq!(widgets.len(), 22);
            assert_eq!(clear, Rect { top: 0, left: 1099, width: 310, height: 460 });
        }
        _ => panic!("the toolbox was expected to open"),
    }
    assert!(is_toolbox_open(&toolbox));
    match toggle_toolbox(&mut toolbox, true) {
        ToolboxChange::Hidden { names, clear } => {
            assert_eq!(names.len(), 22);
            assert_eq!(clear, Rect { top: 0, left: 1099, width: 310, height: 460 });
        }
        _ => panic!("the toolbox was expected to close"),
    }
    assert!(!is_toolbox_open(&toolbox));
}

#[test]
fn cleared_region_has_a_margin_that_stops_at_the_display_edge() {
    let inner = Rect { top: 100, left: 200, width: 30, height: 40 };
    assert_eq!(clear_region(&inner), Rect { top: 95, left: 195, width: 40, height: 50 });
    let corner = Rect { top: 3, left: 0, width: 30, height: 40 };
    assert_eq!(clear_region(&corner), Rect { top: 0, left: 0, width: 40, height: 50 });
    let at_margin = Rect { top: 5, left: 6, width: 0, height: 0 };
    assert_eq!(clear_region(&at_margin), Rect { top: 0, left: 1, width: 10, height: 10 });
}

#[test]
fn regions_are_checked_before_they_are_cleared() {
    assert!(check_clearable(&Rect { top: 0, left: 0, width: 0, height: 0 }));
    assert!(check_clearable(&get_toolbox_panel_region()));
    assert!(check_clearable(&Rect { top: 1, left: 1, width: u32::MAX - 10, height: 5 }));
    assert!(!check_clearable(&Rect { top: 1, left: 1, width: u32::MAX - 9, height: 5 }));
    assert!(!check_clearable(&Rect { top: 1, left: 1, width: 5, height: u32::MAX }));
    assert!(!check_clearable(&Rect { top: 1 << 31, left: 1, width: 5, height: 5 }));
    assert!(!check_clearable(&Rect { top: 1, left: u32::MAX, width: 5, height: 5 }));
}
