use hacksaw::geom::{
    build_guides, contains_point, guide_rects, min_max, outer_geometry, selection_border_rects,
    try_guide_rects, HacksawContainer, Point, Rect,
};

#[test]
fn min_max_orders_pairs() {
    assert_eq!(min_max(3, -2), (-2, 3));
    assert_eq!(min_max(-2, 3), (-2, 3));
    assert_eq!(min_max(7, 7), (7, 7));
}

#[test]
fn contains_point_is_strict_at_origin_and_inclusive_at_extent() {
    let r = Rect { x: 10, y: 10, width: 5, height: 5 };
    assert!(!contains_point(r, Point { x: 10, y: 12 }));
    assert!(contains_point(r, Point { x: 11, y: 12 }));
    assert!(contains_point(r, Point { x: 15, y: 15 }));
    assert!(!contains_point(r, Point { x: 16, y: 15 }));
    assert!(!contains_point(r, Point { x: 15, y: 16 }));
}

#[test]
fn contains_point_handles_negative_origins() {
    let r = Rect { x: -100, y: -100, width: 50, height: 50 };
    assert!(contains_point(r, Point { x: -60, y: -60 }));
    assert!(!contains_point(r, Point { x: -100, y: -60 }));
}

#[test]
fn container_reports_its_rectangle() {
    let c = HacksawContainer { window: 5, rect: Rect { x: 1, y: 2, width: 3, height: 4 } };
    assert_eq!(c.x(), 1);
    assert_eq!(c.y(), 2);
    assert_eq!(c.width(), 3);
    assert_eq!(c.height(), 4);
    assert!(c.contains(Point { x: 2, y: 3 }));
}

#[test]
fn container_relative_to_shifts_by_parent_origin() {
    let child = HacksawContainer { window: 8, rect: Rect { x: 10, y: 20, width: 30, height: 40 } };
    let parent = HacksawContainer {
        window: 1,
        rect: Rect { x: 100, y: 50, width: 500, height: 500 },
    };
    let moved = child.relative_to(parent);
    assert_eq!(moved.window, 8);
    assert_eq!(moved.rect, Rect { x: 110, y: 70, width: 30, height: 40 });
}

#[test]
fn outer_geometry_adds_the_border_twice() {
    let c = outer_geometry(42, 3, 4, 100, 200, 5);
    assert_eq!(c.window, 42);
    assert_eq!(c.rect, Rect { x: 3, y: 4, width: 110, height: 210 });
}

#[test]
fn build_guides_spans_the_screen_rectangle() {
    let screen = Rect { x: 0, y: 0, width: 800, height: 600 };
    let v = build_guides(screen, Point { x: 100, y: 150 }, 10);
    assert_eq!(v.len(), 2);
    assert_eq!(v[0], Rect { x: 95, y: 0, width: 10, height: 600 });
    assert_eq!(v[1], Rect { x: 0, y: 145, width: 800, height: 10 });
}

#[test]
fn guide_rects_centre_on_the_pointer() {
    let v = guide_rects(800, 600, Point { x: 100, y: 150 }, 10);
    assert_eq!(v.len(), 2);
    assert_eq!(v[0], Rect { x: 95, y: 0, width: 10, height: 600 });
    assert_eq!(v[1], Rect { x: 0, y: 145, width: 800, height: 10 });
}

#[test]
fn try_guide_rects_refuses_oversized_widths() {
    assert!(try_guide_rects(800, 600, Point { x: 0, y: 0 }, 40000).is_none());
    let v = try_guide_rects(800, 600, Point { x: 4, y: 4 }, 9).unwrap();
    assert_eq!(v[0], Rect { x: 0, y: 0, width: 9, height: 600 });
}

#[test]
fn border_rects_frame_the_selection() {
    let v = selection_border_rects(10, 20, 30, 40, 1);
    assert_eq!(v.len(), 4);
    assert_eq!(v[0], Rect { x: 9, y: 20, width: 1, height: 21 });
    assert_eq!(v[1], Rect { x: 9, y: 19, width: 21, height: 1 });
    assert_eq!(v[2], Rect { x: 30, y: 19, width: 1, height: 21 });
    assert_eq!(v[3], Rect { x: 10, y: 40, width: 21, height: 1 });
}
