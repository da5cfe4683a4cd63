//! The interactive selection as a state machine.
//!
//! The caller owns the connection to the X server: it polls events, reduces
//! each to an [`InputEvent`], and hands it to [`SelectionState::step`].
//! The step answers with what to draw on the overlay and whether the
//! selection is still running, finished, or cancelled.  Every transition is
//! specified exactly, so the drag-to-rectangle behaviour is proved rather
//! than observed.

use crate::config::HackSawConfig;
use crate::geom::{
    guide_rects, min_max, selection_border_rects, spec_border_rects, spec_guide_rects,
    HacksawContainer, Point, Rect,
};
use vstd::math::{max, min};
use vstd::prelude::*;

verus! {

/// Why a selection ended without a result.
#[derive(Clone, Copy, Debug, PartialEq, Eq, Structural)]
pub enum CancelReason {
    RightClick,
    EscapeKey,
}

/// A pointer or key event, reduced to the values the selection reads.
///
/// Button `detail` values follow the core protocol: 1 is the left button,
/// 3 the right button, 4 and 5 the scroll wheel.
#[derive(Clone, Copy, Debug, PartialEq, Eq, Structural)]
pub enum InputEvent {
    ButtonPress { detail: u8, x: i16, y: i16 },
    KeyPress,
    Motion { x: i16, y: i16 },
    ButtonRelease { detail: u8 },
    Other,
}

/// What the caller must do to the overlay after a step.
#[derive(Debug)]
pub enum Action {
    /// Clip the overlay shape to nothing.
    ClearGuides,
    /// Clip the overlay shape to exactly these rectangles.
    DrawRects(Vec<Rect>),
    /// Leave the overlay untouched.
    Wait,
}

/// Whether the selection goes on after a step.
#[derive(Debug)]
pub enum StepOutcome {
    /// Perform the action, then keep polling events.
    Pending(Action),
    /// The drag ended; the selection is complete.
    Finished,
    /// The user cancelled the selection.
    Cancelled(CancelReason),
}

/// The running state of an interactive selection.
#[derive(Clone, Copy, Debug, PartialEq, Eq, Structural)]
pub struct SelectionState {
    /// Where the current button press started.
    pub start_pt: Point,
    /// The dragged rectangle; extent stays zero outside a drag, which later
    /// marks that a window rather than a region was picked.
    pub selection: Rect,
    /// A drag with a selecting button is in progress.
    pub in_selection: bool,
    /// The release ending a scroll-wheel press is still owed and must not
    /// finish the selection.
    pub ignore_next_release: bool,
}

/// Buttons 4 and 5 are the scroll wheel.
pub open spec fn scroll_button(detail: u8) -> bool {
    detail == 4 || detail == 5
}

/// The rectangle spanned between the drag's start and the pointer; its
/// extent is recorded only during a selecting drag.
pub open spec fn motion_selection(pre: SelectionState, x: i16, y: i16) -> Rect {
    let l = min(x as int, pre.start_pt.x as int);
    let t = min(y as int, pre.start_pt.y as int);
    let r = max(x as int, pre.start_pt.x as int);
    let b = max(y as int, pre.start_pt.y as int);
    if pre.in_selection {
        Rect { x: l as i16, y: t as i16, width: (r - l) as u16, height: (b - t) as u16 }
    } else {
        Rect { x: l as i16, y: t as i16, width: 0, height: 0 }
    }
}

/// The state after one event.
pub open spec fn spec_next_state(pre: SelectionState, event: InputEvent) -> SelectionState {
    match event {
        InputEvent::ButtonPress { detail, x, y } => {
            if detail == 3 {
                pre
            } else {
                SelectionState {
                    start_pt: (Point { x, y }),
                    selection: pre.selection,
                    in_selection: !scroll_button(detail),
                    ignore_next_release: scroll_button(detail),
                }
            }
        },
        InputEvent::Motion { x, y } => SelectionState {
            selection: motion_selection(pre, x, y),
            ..pre
        },
        InputEvent::ButtonRelease { detail } => {
            if !scroll_button(detail) && pre.ignore_next_release {
                SelectionState { ignore_next_release: false, ..pre }
            } else {
                pre
            }
        },
        _ => pre,
    }
}

/// The drawing arithmetic of a motion event stays inside 16-bit ranges:
/// during a drag the frame lines may not push past the coordinate space,
/// and outside one the guide cross hairs may not.
pub open spec fn motion_fits(pre: SelectionState, x: i16, y: i16, config: HackSawConfig) -> bool {
    let l = min(x as int, pre.start_pt.x as int);
    let t = min(y as int, pre.start_pt.y as int);
    let r = max(x as int, pre.start_pt.x as int);
    let b = max(y as int, pre.start_pt.y as int);
    if pre.in_selection {
        &&& config.line_width <= i16::MAX
        &&& l - config.line_width >= i16::MIN
        &&& t - config.line_width >= i16::MIN
        &&& (r - l) + config.line_width <= u16::MAX
        &&& (b - t) + config.line_width <= u16::MAX
    } else {
        match config.guide_width {
            Some(g) => g <= i16::MAX && x - g / 2 >= i16::MIN && y - g / 2 >= i16::MIN,
            None => true,
        }
    }
}

impl SelectionState {
    /// The state before any event: nothing pressed, nothing dragged.
    pub fn new() -> (s: Self)
        ensures
            s == (SelectionState {
                start_pt: (Point { x: 0, y: 0 }),
                selection: (Rect { x: 0, y: 0, width: 0, height: 0 }),
                in_selection: false,
                ignore_next_release: false,
            }),
    {
        SelectionState {
            start_pt: Point { x: 0, y: 0 },
            selection: Rect { x: 0, y: 0, width: 0, height: 0 },
            in_selection: false,
            ignore_next_release: false,
        }
    }

    /// Decides `motion_fits`, so an unverified caller can test it before a
    /// motion step and fail as the drawing arithmetic itself would.
    pub fn motion_fits_check(&self, x: i16, y: i16, config: &HackSawConfig) -> (b: bool)
        ensures
            b == motion_fits(*self, x, y, *config),
    {
        let (l, r) = min_max(x, self.start_pt.x);
        let (t, b) = min_max(y, self.start_pt.y);
        if self.in_selection {
            let lw = config.line_width;
            lw <= 0x7FFF && (l as i32) - (lw as i32) >= -0x8000 && (t as i32) - (lw as i32)
                >= -0x8000 && (r as i32) - (l as i32) + (lw as i32) <= 0xFFFF && (b as i32) - (t
                as i32) + (lw as i32) <= 0xFFFF
        } else {
            match config.guide_width {
                Some(g) => g <= 0x7FFF && (x as i32) - ((g as i32) / 2) >= -0x8000 && (y as i32) - (
                (g as i32) / 2) >= -0x8000,
                None => true,
            }
        }
    }

    /// Advances the selection by one event.
    ///
    /// A right click or a key press cancels.  Another button press starts a
    /// drag at the press position and clears the guides; scroll-wheel
    /// presses start no drag and leave the next release ignored.  Motion
    /// updates the dragged rectangle and asks for the frame around it (or,
    /// outside a drag, for the guide cross hairs).  A release of an
    /// ordinary button ends the selection unless it was owed to a scroll
    /// press.
    pub fn step(
        &mut self,
        event: InputEvent,
        config: &HackSawConfig,
        screen_width: u16,
        screen_height: u16,
    ) -> (out: StepOutcome)
        requires
            event matches InputEvent::Motion { x, y } ==> motion_fits(*old(self), x, y, *config),
        ensures
            *final(self) == spec_next_state(*old(self), event),
            match event {
                InputEvent::ButtonPress { detail, .. } => {
                    if detail == 3 {
                        out == StepOutcome::Cancelled(CancelReason::RightClick)
                    } else {
                        out == StepOutcome::Pending(Action::ClearGuides)
                    }
                },
                InputEvent::KeyPress => out == StepOutcome::Cancelled(CancelReason::EscapeKey),
                InputEvent::Motion { x, y } => {
                    let l = min(x as int, old(self).start_pt.x as int);
                    let t = min(y as int, old(self).start_pt.y as int);
                    let r = max(x as int, old(self).start_pt.x as int);
                    let b = max(y as int, old(self).start_pt.y as int);
                    if old(self).in_selection {
                        out matches StepOutcome::Pending(Action::DrawRects(v)) && v@
                            == spec_border_rects(l, t, r, b, config.line_width as int)
                    } else {
                        match config.guide_width {
                            Some(g) => out matches StepOutcome::Pending(Action::DrawRects(v)) && v@
                                == spec_guide_rects(
                                screen_width as int,
                                screen_height as int,
                                x as int,
                                y as int,
                                g as int,
                            ),
                            None => out == StepOutcome::Pending(Action::Wait),
                        }
                    }
                },
                InputEvent::ButtonRelease { detail } => {
                    if scroll_button(detail) || old(self).ignore_next_release {
                        out == StepOutcome::Pending(Action::Wait)
                    } else {
                        out == StepOutcome::Finished
                    }
                },
                InputEvent::Other => out == StepOutcome::Pending(Action::Wait),
            },
    {
        match event {
            InputEvent::ButtonPress { detail, x, y } => {
                if detail == 3 {
                    StepOutcome::Cancelled(CancelReason::RightClick)
                } else {
                    let scroll = detail == 4 || detail == 5;
                    self.start_pt = Point { x, y };
                    self.in_selection = !scroll;
                    self.ignore_next_release = scroll;
                    StepOutcome::Pending(Action::ClearGuides)
                }
            },
            InputEvent::KeyPress => StepOutcome::Cancelled(CancelReason::EscapeKey),
            InputEvent::Motion { x, y } => {
                let (left_x, right_x) = min_max(x, self.start_pt.x);
                let (top_y, bottom_y) = min_max(y, self.start_pt.y);
                if self.in_selection {
                    let width: u16 = ((right_x as i32) - (left_x as i32)) as u16;
                    let height: u16 = ((bottom_y as i32) - (top_y as i32)) as u16;
                    self.selection = Rect { x: left_x, y: top_y, width, height };
                    let rects = selection_border_rects(
                        left_x,
                        top_y,
                        right_x,
                        bottom_y,
                        config.line_width,
                    );
                    StepOutcome::Pending(Action::DrawRects(rects))
                } else {
                    self.selection = Rect { x: left_x, y: top_y, width: 0, height: 0 };
                    match config.guide_width {
                        Some(g) => {
                            let rects = guide_rects(
                                screen_width,
                                screen_height,
                                Point { x, y },
                                g,
                            );
                            StepOutcome::Pending(Action::DrawRects(rects))
                        },
                        None => StepOutcome::Pending(Action::Wait),
                    }
                }
            },
            InputEvent::ButtonRelease { detail } => {
                if detail == 4 || detail == 5 {
                    StepOutcome::Pending(Action::Wait)
                } else if self.ignore_next_release {
                    self.ignore_next_release = false;
                    StepOutcome::Pending(Action::Wait)
                } else {
                    StepOutcome::Finished
                }
            },
            InputEvent::Other => StepOutcome::Pending(Action::Wait),
        }
    }

    /// After `Finished`: nothing was dragged out, so the window under the
    /// drag's starting point is what was selected.
    pub fn is_window_selection(&self) -> (b: bool)
        ensures
            b == (self.selection.width == 0 && self.selection.height == 0),
    {
        self.selection.width == 0 && self.selection.height == 0
    }

    /// The dragged region as a container on the root window.
    pub fn region_container(&self, root: u32) -> (c: HacksawContainer)
        ensures
            c.window == root,
            c.rect == self.selection,
    {
        HacksawContainer { window: root, rect: self.selection }
    }
}

impl CancelReason {
    /// The message reported when the user cancels the selection.
    pub fn message(&self) -> (s: String)
        ensures
            *self == CancelReason::RightClick ==> s@ == "Exiting due to right click"@,
            *self == CancelReason::EscapeKey ==> s@ == "Exiting due to ESC key press"@,
    {
        match self {
            CancelReason::RightClick => "Exiting due to right click".to_owned(),
            CancelReason::EscapeKey => "Exiting due to ESC key press".to_owned(),
        }
    }
}

} // verus!
