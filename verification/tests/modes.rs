use harmonizers::draw_mode::{DrawMode, MAX_BRUSH_SIZE, MIN_BRUSH_SIZE};
use harmonizers::layout::canvas::on_toggle_eraser;
use harmonizers::text::{part_name, size_label};
use harmonizers::touch_mode::TouchMode;

#[test]
fn draw_mode_keeps_its_kind_when_resized() {
    assert_eq!(DrawMode::Draw(2).set_size(7), DrawMode::Draw(7));
    assert_eq!(DrawMode::Erase(2).set_size(7), DrawMode::Erase(7));
    assert_eq!(DrawMode::Draw(2).get_size(), 2);
    assert_eq!(DrawMode::Erase(9).get_size(), 9);
}

#[test]
fn draw_mode_names_its_colour() {
    assert_eq!(DrawMode::Draw(2).color_as_string(), "Black");
    assert_eq!(DrawMode::Erase(2).color_as_string(), "White");
}

#[test]
fn draw_mode_is_written_with_its_size() {
    assert_eq!(DrawMode::Draw(2).name(), "Draw(2)");
    assert_eq!(DrawMode::Erase(99).name(), "Erase(99)");
    assert_eq!(DrawMode::Draw(0).name(), format!("{:?}", DrawMode::Draw(0)));
    assert_eq!(DrawMode::Erase(120).name(), format!("{:?}", DrawMode::Erase(120)));
}

#[test]
fn brush_width_changes_by_the_delta() {
    assert_eq!(DrawMode::Draw(2).change_brush_width(3), Some(DrawMode::Draw(5)));
    assert_eq!(DrawMode::Erase(10).change_brush_width(-4), Some(DrawMode::Erase(6)));
}

#[test]
fn brush_width_stays_within_its_limits() {
    assert_eq!((MIN_BRUSH_SIZE, MAX_BRUSH_SIZE), (1, 99));
    assert_eq!(DrawMode::Draw(2).change_brush_width(-5), Some(DrawMode::Draw(1)));
    assert_eq!(DrawMode::Draw(98).change_brush_width(5), Some(DrawMode::Draw(99)));
    assert_eq!(DrawMode::Draw(50).change_brush_width(i32::MAX), Some(DrawMode::Draw(99)));
    assert_eq!(DrawMode::Draw(50).change_brush_width(i32::MIN), Some(DrawMode::Draw(1)));
    assert_eq!(DrawMode::Draw(u32::MAX).change_brush_width(1), Some(DrawMode::Draw(99)));
}

#[test]
fn brush_width_that_stays_changes_nothing() {
    assert_eq!(DrawMode::Draw(2).change_brush_width(0), None);
    assert_eq!(DrawMode::Draw(1).change_brush_width(-1), None);
    assert_eq!(DrawMode::Erase(99).change_brush_width(10), None);
}

#[test]
fn eraser_toggles_and_names_the_new_colour() {
    assert_eq!(on_toggle_eraser(DrawMode::Draw(4)), (DrawMode::Erase(4), "White".to_string()));
    assert_eq!(on_toggle_eraser(DrawMode::Erase(4)), (DrawMode::Draw(4), "Black".to_string()));
    let (back, _) = on_toggle_eraser(on_toggle_eraser(DrawMode::Draw(4)).0);
    assert_eq!(back, DrawMode::Draw(4));
}

#[test]
fn size_label_reads_the_size_in_decimal() {
    assert_eq!(size_label(7), "size: 7");
    assert_eq!(size_label(0), "size: 0");
    assert_eq!(size_label(42), "size: 42");
    assert_eq!(size_label(99), "size: 99");
    assert_eq!(size_label(u32::MAX), "size: 4294967295");
}

#[test]
fn part_name_joins_name_and_index() {
    assert_eq!(part_name("BrushType", 0), "BrushType_0");
    assert_eq!(part_name("Layers", 1), "Layers_1");
    assert_eq!(part_name("", 120), "_120");
}

#[test]
fn touch_modes_cycle_through_all_five() {
    assert_eq!(TouchMode::OnlyUI.next(), TouchMode::Bezier);
    assert_eq!(TouchMode::Bezier.next(), TouchMode::Circles);
    assert_eq!(TouchMode::Circles.next(), TouchMode::Diamonds);
    assert_eq!(TouchMode::Diamonds.next(), TouchMode::FillDiamonds);
    assert_eq!(TouchMode::FillDiamonds.next(), TouchMode::OnlyUI);
}

#[test]
fn touch_modes_have_their_names() {
    assert_eq!(TouchMode::OnlyUI.name(), "OnlyUI");
    assert_eq!(TouchMode::Bezier.name(), "Bezier");
    assert_eq!(TouchMode::Circles.name(), "Circles");
    assert_eq!(TouchMode::Diamonds.name(), "Diamonds");
    assert_eq!(TouchMode::FillDiamonds.name(), "FillDiamonds");
}
