use harmonizers::canvas::{
    centered_point, check_frame, check_round_button, draw_drop_down, draw_rect, is_hitting, is_separator, needs_measuring,
    rect_button, round_button, text_ink, text_origin, DropDown, DropItem, Frame, BUTTON_BORDER,
};
use harmonizers::geometry::{OptPoint, Point, Rect, Size};
use harmonizers::stroke::Ink;

fn rect(top: u32, left: u32, width: u32, height: u32) -> Rect {
    Rect { top, left, width, height }
}

#[test]
fn open_coordinates_go_to_the_centre_of_the_display() {
    assert_eq!(centered_point(OptPoint { x: None, y: Some(5) }), Point { x: 702, y: 5 });
    assert_eq!(centered_point(OptPoint { x: Some(3), y: None }), Point { x: 3, y: 936 });
    assert_eq!(centered_point(OptPoint { x: None, y: None }), Point { x: 702, y: 936 });
    assert_eq!(centered_point(OptPoint::at(-7, 9)), Point { x: -7, y: 9 });
}

#[test]
fn text_is_measured_only_to_be_centred() {
    assert!(!needs_measuring(OptPoint::at(1, 2)));
    assert!(needs_measuring(OptPoint { x: None, y: Some(2) }));
    assert!(needs_measuring(OptPoint { x: Some(1), y: None }));
    assert!(needs_measuring(OptPoint { x: None, y: None }));
}

#[test]
fn centred_text_begins_half_its_extent_before_the_centre() {
    let measured = Size { width: 100, height: 50 };
    assert_eq!(text_origin(OptPoint { x: None, y: None }, measured), Point { x: 652, y: 911 });
    assert_eq!(text_origin(OptPoint { x: None, y: Some(8) }, measured), Point { x: 652, y: 8 });
    assert_eq!(text_origin(OptPoint { x: Some(8), y: None }, measured), Point { x: 8, y: 911 });
    assert_eq!(text_origin(OptPoint::at(8, 9), measured), Point { x: 8, y: 9 });
    let odd = Size { width: 101, height: 51 };
    assert_eq!(text_origin(OptPoint { x: None, y: None }, odd), Point { x: 652, y: 911 });
    let wide = Size { width: 2000, height: 4000 };
    assert_eq!(text_origin(OptPoint { x: None, y: None }, wide), Point { x: -298, y: -1064 });
}

#[test]
fn text_is_black_unless_asked_otherwise() {
    assert_eq!(text_ink(None), Ink::Black);
    assert_eq!(text_ink(Some(Ink::White)), Ink::White);
    assert_eq!(text_ink(Some(Ink::Black)), Ink::Black);
}

#[test]
fn frame_takes_the_region_of_its_corner_and_extent() {
    let frame = draw_rect(OptPoint::at(10, 20), Size { width: 30, height: 40 }, 5);
    assert_eq!(
        frame,
        Frame {
            at: Point { x: 10, y: 20 },
            size: Size { width: 30, height: 40 },
            border_px: 5,
            region: rect(20, 10, 30, 40),
        }
    );
    let centred = draw_rect(OptPoint { x: None, y: None }, Size { width: 1, height: 2 }, 3);
    assert_eq!(centred.region, rect(936, 702, 1, 2));
}

#[test]
fn round_button_circles_its_text() {
    assert_eq!(round_button(&rect(100, 200, 60, 30)), (Point { x: 230, y: 115 }, 60));
    assert_eq!(round_button(&rect(100, 200, 30, 61)), (Point { x: 215, y: 130 }, 61));
    assert_eq!(round_button(&rect(0, 0, 0, 0)), (Point { x: 0, y: 0 }, 0));
}

#[test]
fn rect_button_frames_its_text_at_the_gaps() {
    let frame = rect_button(&rect(100, 200, 60, 30), 6, 8);
    assert_eq!(frame.at, Point { x: 192, y: 94 });
    assert_eq!(frame.size, Size { width: 76, height: 42 });
    assert_eq!(frame.border_px, BUTTON_BORDER);
    assert_eq!(frame.border_px, 5);
    assert_eq!(frame.region, rect(94, 192, 76, 42));
}

#[test]
fn hitbox_is_hit_up_to_its_far_edges() {
    let hitbox = rect(10, 20, 30, 40);
    assert!(is_hitting(20, 10, hitbox));
    assert!(is_hitting(49, 49, hitbox));
    assert!(!is_hitting(50, 49, hitbox));
    assert!(!is_hitting(49, 50, hitbox));
    assert!(!is_hitting(19, 10, hitbox));
    assert!(!is_hitting(20, 9, hitbox));
    assert!(!is_hitting(0, 0, rect(0, 0, 0, 0)));
}

#[test]
fn empty_entries_and_dashes_are_separators() {
    assert!(is_separator(""));
    assert!(is_separator("-"));
    assert!(!is_separator("--"));
    assert!(!is_separator("a"));
    assert!(!is_separator(" "));
    assert!(!is_separator("FUR"));
    assert!(!is_separator("\u{2013}"));
}

#[test]
fn open_menu_draws_every_entry_and_closed_menu_the_selected_one() {
    let options: Vec<String> = ["WEB", "", "SIMPLE", "-"].iter().map(|s| s.to_string()).collect();
    assert_eq!(
        draw_drop_down(&options, 2, true),
        vec![(0, false), (1, true), (2, false), (3, true)]
    );
    assert_eq!(draw_drop_down(&options, 2, false), vec![(2, false)]);
    // A closed menu shows its selected entry as text, whatever it reads.
    assert_eq!(draw_drop_down(&options, 1, false), vec![(1, false)]);
    assert_eq!(draw_drop_down(&vec![], 0, true), vec![]);
}

#[test]
fn closed_menu_is_its_entry_framed_with_room_for_the_arrow() {
    let mut menu = DropDown::new(Point { x: 644, y: 32 }, 6, 6, 60);
    assert_eq!(menu.place(false), DropItem::Text { at: Point { x: 650, y: 38 } });
    menu.placed(false, rect(20, 650, 100, 24));
    assert_eq!(menu.bounds, rect(20, 650, 100, 24));
    let frame = menu.frame();
    assert_eq!(frame.at, Point { x: 644, y: 14 });
    assert_eq!(frame.size, Size { width: 178, height: 36 });
    assert_eq!(frame.border_px, 3);
    assert_eq!(frame.region, rect(14, 644, 178, 36));
    assert_eq!(menu.icon_position(), Point { x: 756, y: 29 });
}

#[test]
fn open_menu_stacks_its_entries_and_spans_them_with_separators() {
    let mut menu = DropDown::new(Point { x: 644, y: 32 }, 6, 6, 60);
    assert_eq!(menu.place(false), DropItem::Text { at: Point { x: 650, y: 38 } });
    menu.placed(false, rect(20, 650, 100, 24));
    assert!(!menu.first);

    let line = menu.place(true);
    assert_eq!(
        line,
        DropItem::Separator {
            from: Point { x: 650, y: 70 },
            to: Point { x: 816, y: 70 },
            width: 1,
        }
    );
    assert_eq!(menu.pos, Point { x: 650, y: 94 });
    menu.placed(true, rect(70, 650, 166, 1));
    // A separator counts as wide as the entries before it.
    assert_eq!(menu.last, rect(70, 650, 100, 1));
    assert_eq!(menu.bounds, rect(20, 650, 100, 51));

    assert_eq!(menu.place(false), DropItem::Text { at: Point { x: 650, y: 127 } });
    menu.placed(false, rect(110, 650, 80, 24));
    assert_eq!(menu.bounds, rect(20, 650, 100, 114));

    let frame = menu.frame();
    assert_eq!(frame.region, rect(14, 644, 178, 126));
    assert_eq!(menu.icon_position(), Point { x: 756, y: 29 });
}

#[test]
fn menu_of_which_nothing_was_drawn_is_bounded_by_the_invalid_region() {
    let mut menu = DropDown::new(Point { x: 10, y: 10 }, 2, 3, 4);
    menu.place(false);
    menu.placed(false, rect(5, 6, 0, 0));
    assert_eq!(menu.bounds, Rect::invalid());
    assert_eq!(menu.frame().region, rect(9997, 9996, 13, 4));
}

#[test]
fn frames_and_circles_are_checked_before_they_are_made() {
    assert!(check_frame(&rect(100, 200, 60, 30), 6, 8, 0));
    assert!(check_frame(&rect(6, 8, 60, 30), 6, 8, 0));
    assert!(!check_frame(&rect(5, 8, 60, 30), 6, 8, 0));
    assert!(!check_frame(&rect(6, 7, 60, 30), 6, 8, 0));
    assert!(!check_frame(&rect(100, 200, u32::MAX - 15, 30), 6, 8, 0));
    assert!(check_frame(&rect(100, 200, u32::MAX - 16, 30), 6, 8, 0));
    assert!(!check_frame(&rect(100, 200, u32::MAX - 16, 30), 6, 8, 1));
    assert!(!check_frame(&rect(100, 1 << 31, 1, 1), 6, 8, 0));
    assert!(check_round_button(&rect(100, 200, 60, 30)));
    assert!(check_round_button(&rect(0, i32::MAX as u32 - 1, 3, 0)));
    assert!(!check_round_button(&rect(0, i32::MAX as u32, 2, 0)));
    assert!(!check_round_button(&rect(u32::MAX, 0, 0, 0)));
}

#[test]
fn menu_entries_are_checked_before_they_are_placed() {
    let menu = DropDown::new(Point { x: 644, y: 32 }, 6, 6, 60);
    assert!(menu.check_place(false));
    assert!(menu.check_place(true));
    assert!(menu.check_placed(false, rect(20, 650, 100, 24)));
    assert!(menu.check_placed(false, rect(u32::MAX, u32::MAX, 100, 24)));
    // Nothing was drawn yet, so the frame would begin off the display.
    assert!(!menu.check_frame());
    let far = DropDown::new(Point { x: i32::MAX - 5, y: 32 }, 6, 6, 60);
    assert!(!far.check_place(false));
    let low = DropDown::new(Point { x: 0, y: i32::MAX }, 6, 1, 60);
    assert!(!low.check_place(false));
    let edge = DropDown::new(Point { x: i32::MAX - 66, y: 0 }, 0, 6, 60);
    assert!(edge.check_place(true));
    let over = DropDown::new(Point { x: i32::MAX - 65, y: 0 }, 0, 6, 60);
    assert!(over.check_place(false));
    assert!(!over.check_place(true));

    let mut drawn = DropDown::new(Point { x: 644, y: 32 }, 6, 6, 60);
    drawn.place(false);
    drawn.placed(false, rect(20, 650, 100, 24));
    assert!(drawn.check_frame());
    assert!(!drawn.check_placed(false, rect(u32::MAX, 0, 1, 1)));
    assert!(drawn.check_placed(false, rect(u32::MAX, 0, 0, 1)));
}
