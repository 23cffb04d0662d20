use harmonizers::geometry::{merge_all, OptPoint, Point, Rect, Size, INVALID_EDGE};
use libremarkable::framebuffer::cgmath::Point2;
use libremarkable::framebuffer::common::mxcfb_rect;

fn rect(top: u32, left: u32, width: u32, height: u32) -> Rect {
    Rect { top, left, width, height }
}

fn driver(r: Rect) -> mxcfb_rect {
    mxcfb_rect { top: r.top, left: r.left, width: r.width, height: r.height }
}

#[test]
fn invalid_region_is_parked_and_empty() {
    assert_eq!(Rect::invalid(), rect(9999, 9999, 0, 0));
    assert_eq!(INVALID_EDGE, 9999);
    let m = mxcfb_rect::invalid();
    assert_eq!((m.top, m.left, m.width, m.height), (9999, 9999, 0, 0));
}

#[test]
fn merge_of_two_empty_regions_is_invalid() {
    let a = rect(3, 4, 0, 7);
    let b = rect(1, 1, 5, 0);
    assert_eq!(a.merge_rect(&b), Rect::invalid());
    assert_eq!(b.merge_rect(&a), Rect::invalid());
}

#[test]
fn merge_with_one_empty_region_gives_the_other() {
    let a = rect(1, 2, 3, 4);
    let empty = rect(0, 5, 0, 4);
    assert_eq!(a.merge_rect(&empty), a);
    assert_eq!(empty.merge_rect(&a), a);
    assert_eq!(Rect::invalid().merge_rect(&a), a);
}

#[test]
fn merge_is_the_bounding_box() {
    let a = rect(1, 2, 3, 4);
    let c = rect(0, 4, 10, 2);
    assert_eq!(a.merge_rect(&c), rect(0, 2, 12, 5));
    assert_eq!(c.merge_rect(&a), rect(0, 2, 12, 5));
    assert_eq!(a.merge_rect(&a), a);
}

#[test]
fn merge_of_disjoint_regions_spans_the_gap() {
    let a = rect(10, 10, 5, 5);
    let b = rect(100, 200, 20, 30);
    assert_eq!(a.merge_rect(&b), rect(10, 10, 210, 120));
}

#[test]
fn merge_agrees_with_the_driver() {
    let cases = [
        (rect(1, 2, 3, 4), rect(0, 4, 10, 2)),
        (rect(0, 0, 0, 0), rect(7, 8, 9, 10)),
        (rect(7, 8, 9, 10), rect(0, 0, 0, 0)),
        (rect(0, 0, 0, 0), rect(0, 0, 0, 0)),
        (rect(50, 60, 1, 1), rect(50, 60, 1, 1)),
    ];
    for (a, b) in cases {
        let m = driver(a).merge_rect(&driver(b));
        assert_eq!(a.merge_rect(&b), rect(m.top, m.left, m.width, m.height));
    }
}

#[test]
fn contains_point_counts_the_far_edges() {
    let r = rect(10, 20, 30, 40);
    assert!(r.contains_point(20, 10));
    assert!(r.contains_point(50, 50));
    assert!(r.contains_point(35, 30));
    assert!(!r.contains_point(19, 10));
    assert!(!r.contains_point(20, 9));
    assert!(!r.contains_point(51, 50));
    assert!(!r.contains_point(50, 51));
}

#[test]
fn contains_point_agrees_with_the_driver() {
    let r = rect(10, 20, 30, 40);
    for (x, y) in [(20, 10), (50, 50), (51, 50), (0, 0), (19, 30), (35, 51)] {
        assert_eq!(r.contains_point(x, y), driver(r).contains_point(&Point2 { x, y }));
    }
}

#[test]
fn merge_all_of_nothing_is_invalid() {
    assert_eq!(merge_all(&vec![]), Rect::invalid());
}

#[test]
fn merge_all_is_the_box_of_all() {
    let rects = vec![rect(10, 10, 5, 5), rect(0, 0, 0, 0), rect(3, 30, 2, 2), rect(12, 4, 1, 20)];
    assert_eq!(merge_all(&rects), rect(3, 4, 28, 29));
    assert_eq!(merge_all(&vec![rect(1, 2, 3, 4)]), rect(1, 2, 3, 4));
}

#[test]
fn rect_from_corner_and_extent() {
    let r = Rect::from(Point { x: 7, y: 9 }, Size { width: 3, height: 4 });
    assert_eq!(r, rect(9, 7, 3, 4));
    assert_eq!(r.top_left(), (7, 9));
    assert_eq!(r.size(), Size { width: 3, height: 4 });
}

#[test]
fn opt_point_at_gives_both_coordinates() {
    assert_eq!(OptPoint::at(3, -4), OptPoint { x: Some(3), y: Some(-4) });
}

#[test]
fn far_edges_are_checked() {
    assert!(rect(10, 20, 30, 40).check_fits());
    assert!(rect(u32::MAX, u32::MAX, 0, 0).check_fits());
    assert!(rect(u32::MAX - 1, 0, 5, 1).check_fits());
    assert!(!rect(u32::MAX, 0, 5, 1).check_fits());
    assert!(!rect(0, u32::MAX, 1, 5).check_fits());
    assert!(rect(1, 2, 3, 4).check_mergeable(&rect(5, 6, 7, 8)));
    assert!(rect(u32::MAX, 2, 3, 4).check_mergeable(&rect(5, 6, 0, 8)));
    assert!(rect(1, 2, 3, 0).check_mergeable(&rect(u32::MAX, 6, 7, 8)));
    assert!(!rect(1, 2, 3, 4).check_mergeable(&rect(u32::MAX, 6, 7, 8)));
    assert!(!rect(1, u32::MAX, 3, 4).check_mergeable(&rect(5, 6, 7, 8)));
}
