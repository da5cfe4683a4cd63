use hacksaw::geom::{Point, Rect};
use hacksaw::selection::{Action, CancelReason, InputEvent, SelectionState, StepOutcome};
use hacksaw::HackSawConfig;

fn config() -> HackSawConfig {
    HackSawConfig {
        line_width: 1,
        guide_width: Some(1),
        line_colour: 0xFF7F7F7F,
        remove_decorations: 0,
    }
}

fn drawn_rects(out: StepOutcome) -> Vec<Rect> {
    match out {
        StepOutcome::Pending(Action::DrawRects(v)) => v,
        _ => panic!("expected a drawing action"),
    }
}

#[test]
fn drag_produces_the_spanned_rectangle() {
    let cfg = config();
    let mut st = SelectionState::new();

    let out = st.step(InputEvent::ButtonPress { detail: 1, x: 10, y: 20 }, &cfg, 800, 600);
    assert!(matches!(out, StepOutcome::Pending(Action::ClearGuides)));
    assert_eq!(st.start_pt, Point { x: 10, y: 20 });
    assert!(st.in_selection);
    assert!(!st.ignore_next_release);

    let out = st.step(InputEvent::Motion { x: 30, y: 40 }, &cfg, 800, 600);
    assert_eq!(st.selection, Rect { x: 10, y: 20, width: 20, height: 20 });
    let rects = drawn_rects(out);
    assert_eq!(rects[0], Rect { x: 9, y: 20, width: 1, height: 21 });
    assert_eq!(rects[1], Rect { x: 9, y: 19, width: 21, height: 1 });
    assert_eq!(rects[2], Rect { x: 30, y: 19, width: 1, height: 21 });
    assert_eq!(rects[3], Rect { x: 10, y: 40, width: 21, height: 1 });

    let out = st.step(InputEvent::Motion { x: 5, y: 10 }, &cfg, 800, 600);
    assert_eq!(st.selection, Rect { x: 5, y: 10, width: 5, height: 10 });
    drawn_rects(out);

    let out = st.step(InputEvent::ButtonRelease { detail: 1 }, &cfg, 800, 600);
    assert!(matches!(out, StepOutcome::Finished));
    assert!(!st.is_window_selection());

    let region = st.region_container(99);
    assert_eq!(region.window, 99);
    assert_eq!(region.rect, Rect { x: 5, y: 10, width: 5, height: 10 });
}

#[test]
fn right_click_cancels() {
    let cfg = config();
    let mut st = SelectionState::new();
    let out = st.step(InputEvent::ButtonPress { detail: 3, x: 0, y: 0 }, &cfg, 800, 600);
    assert!(matches!(out, StepOutcome::Cancelled(CancelReason::RightClick)));
}

#[test]
fn escape_cancels() {
    let cfg = config();
    let mut st = SelectionState::new();
    let out = st.step(InputEvent::KeyPress, &cfg, 800, 600);
    assert!(matches!(out, StepOutcome::Cancelled(CancelReason::EscapeKey)));
}

#[test]
fn scroll_press_starts_no_drag_and_its_release_is_ignored() {
    let cfg = config();
    let mut st = SelectionState::new();

    let out = st.step(InputEvent::ButtonPress { detail: 4, x: 1, y: 2 }, &cfg, 800, 600);
    assert!(matches!(out, StepOutcome::Pending(Action::ClearGuides)));
    assert!(!st.in_selection);
    assert!(st.ignore_next_release);

    let out = st.step(InputEvent::Motion { x: 8, y: 9 }, &cfg, 800, 600);
    assert_eq!(st.selection, Rect { x: 1, y: 2, width: 0, height: 0 });
    let rects = drawn_rects(out);
    assert_eq!(rects[0], Rect { x: 8, y: 0, width: 1, height: 600 });
    assert_eq!(rects[1], Rect { x: 0, y: 9, width: 800, height: 1 });

    let out = st.step(InputEvent::ButtonRelease { detail: 4 }, &cfg, 800, 600);
    assert!(matches!(out, StepOutcome::Pending(Action::Wait)));
    assert!(st.ignore_next_release);

    let out = st.step(InputEvent::ButtonRelease { detail: 1 }, &cfg, 800, 600);
    assert!(matches!(out, StepOutcome::Pending(Action::Wait)));
    assert!(!st.ignore_next_release);

    let out = st.step(InputEvent::ButtonRelease { detail: 1 }, &cfg, 800, 600);
    assert!(matches!(out, StepOutcome::Finished));
    assert!(st.is_window_selection());
}

#[test]
fn motion_without_guides_draws_nothing() {
    let cfg = HackSawConfig { guide_width: None, ..config() };
    let mut st = SelectionState::new();
    let out = st.step(InputEvent::Motion { x: 8, y: 9 }, &cfg, 800, 600);
    assert!(matches!(out, StepOutcome::Pending(Action::Wait)));
}

#[test]
fn unrelated_events_change_nothing() {
    let cfg = config();
    let mut st = SelectionState::new();
    let before = st;
    let out = st.step(InputEvent::Other, &cfg, 800, 600);
    assert!(matches!(out, StepOutcome::Pending(Action::Wait)));
    assert_eq!(st, before);
}

#[test]
fn motion_fits_check_spots_overflowing_line_widths() {
    let cfg = config();
    let mut st = SelectionState::new();
    st.step(InputEvent::ButtonPress { detail: 1, x: 0, y: 0 }, &cfg, 800, 600);
    assert!(st.motion_fits_check(10, 10, &cfg));
    let wide = HackSawConfig { line_width: 40000, ..cfg };
    assert!(!st.motion_fits_check(10, 10, &wide));
    let deep = HackSawConfig { line_width: 30000, ..cfg };
    assert!(!st.motion_fits_check(-32768 + 100, 10, &deep));
}

#[test]
fn cancel_messages_name_the_cause() {
    assert_eq!(CancelReason::RightClick.message(), "Exiting due to right click");
    assert_eq!(CancelReason::EscapeKey.message(), "Exiting due to ESC key press");
}
