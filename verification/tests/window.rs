use hacksaw::geom::{Point, Rect};
use hacksaw::window::{
    full_screen_result, get_window_at_point, relative_to_point, ChildCandidate, HackSawResult,
};

fn child(window: u32, viewable: bool, input_output: bool, rect: Rect) -> ChildCandidate {
    ChildCandidate { window, viewable, input_output, rect }
}

#[test]
fn no_children_means_no_window() {
    let children: Vec<ChildCandidate> = Vec::new();
    assert_eq!(get_window_at_point(&children, Point { x: 5, y: 5 }), None);
}

#[test]
fn topmost_matching_child_wins() {
    let r = Rect { x: 0, y: 0, width: 100, height: 100 };
    let children = vec![child(7, true, true, r), child(9, true, true, r)];
    let picked = get_window_at_point(&children, Point { x: 5, y: 5 }).unwrap();
    assert_eq!(picked, HackSawResult { window: 9, width: 100, height: 100, x: 0, y: 0 });
}

#[test]
fn unmapped_and_input_only_children_are_skipped() {
    let r = Rect { x: 0, y: 0, width: 100, height: 100 };
    let children = vec![
        child(7, true, true, r),
        child(8, false, true, r),
        child(9, true, false, r),
    ];
    let picked = get_window_at_point(&children, Point { x: 5, y: 5 }).unwrap();
    assert_eq!(picked.window, 7);
}

#[test]
fn children_away_from_the_point_are_skipped() {
    let children = vec![
        child(7, true, true, Rect { x: 200, y: 200, width: 10, height: 10 }),
        child(8, true, true, Rect { x: 0, y: 0, width: 3, height: 3 }),
    ];
    assert_eq!(get_window_at_point(&children, Point { x: 50, y: 50 }), None);
    let picked = get_window_at_point(&children, Point { x: 2, y: 2 }).unwrap();
    assert_eq!(picked.window, 8);
}

#[test]
fn relative_geometry_moves_into_root_coordinates() {
    let parent = HackSawResult { window: 3, width: 500, height: 400, x: 100, y: 50 };
    let inner = relative_to_point(Rect { x: 10, y: 20, width: 480, height: 360 }, parent, 11);
    assert_eq!(inner, HackSawResult { window: 11, width: 480, height: 360, x: 110, y: 70 });
}

#[test]
fn full_screen_covers_everything_from_the_origin() {
    let r = full_screen_result(1, 1920, 1080);
    assert_eq!(r, HackSawResult { window: 1, width: 1920, height: 1080, x: 0, y: 0 });
}
