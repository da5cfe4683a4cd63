//! Picking the window under a point.
//!
//! The caller queries the X server for the root window's children and each
//! child's attributes and geometry, and hands the plain values in.  The
//! scan itself — which children count as targets and which of them wins —
//! is verified here.

use crate::geom::{contains_point, rect_contains, Point, Rect};
use vstd::prelude::*;

verus! {

/// A selected area: a window and the rectangle it covers.
#[derive(Clone, Copy, Debug, PartialEq, Eq, Structural)]
pub struct HackSawResult {
    pub window: u32,
    pub width: u16,
    pub height: u16,
    pub x: i16,
    pub y: i16,
}

/// What kind of selection the geometry lookup resolves: the window under a
/// point (descending the given number of decoration levels), or the whole
/// screen.
#[derive(Clone, Copy, Debug, PartialEq, Eq, Structural)]
pub enum SelectionType {
    SelectWindow(Point, u32),
    SelectFullScreen,
}

/// One child of the root window, as the server reports it: its map state
/// and class reduced to the two tests the scan makes, and its geometry.
#[derive(Clone, Copy, Debug, PartialEq, Eq, Structural)]
pub struct ChildCandidate {
    pub window: u32,
    /// The child's map state is viewable.
    pub viewable: bool,
    /// The child's class is input-output.
    pub input_output: bool,
    pub rect: Rect,
}

/// A child is a target when it is viewable, accepts output, and covers the
/// point.
pub open spec fn child_matches(c: ChildCandidate, pt: Point) -> bool {
    c.viewable && c.input_output && rect_contains(c.rect, pt)
}

/// The selection a matching child yields.
pub open spec fn result_of(c: ChildCandidate) -> HackSawResult {
    HackSawResult { window: c.window, width: c.rect.width, height: c.rect.height, x: c.rect.x, y: c.rect.y }
}

/// The index of the last matching child, if any: children are kept in
/// stacking order, so the last match is the topmost target.
pub open spec fn spec_last_match(s: Seq<ChildCandidate>, pt: Point) -> Option<int>
    decreases s.len(),
{
    if s.len() == 0 {
        None
    } else if child_matches(s.last(), pt) {
        Some(s.len() - 1)
    } else {
        spec_last_match(s.drop_last(), pt)
    }
}

/// Scans the root's children for the topmost viewable input-output window
/// that covers `pt`.
pub fn get_window_at_point(children: &Vec<ChildCandidate>, pt: Point) -> (r: Option<HackSawResult>)
    ensures
        match spec_last_match(children@, pt) {
            Some(i) => r == Some(result_of(children@[i])),
            None => r is None,
        },
{
    let ghost s: Seq<ChildCandidate> = children@;
    let mut found: Option<HackSawResult> = None;
    let n: usize = children.len();
    let mut i: usize = 0;
    while i < n
        invariant
            i <= n,
            n == s.len(),
            s == children@,
            match spec_last_match(s.take(i as int), pt) {
                Some(j) => found == Some(result_of(s[j])),
                None => found is None,
            },
        decreases n - i,
    {
        let c = children[i];
        if c.viewable && c.input_output && contains_point(c.rect, pt) {
            found = Some(
                HackSawResult {
                    window: c.window,
                    width: c.rect.width,
                    height: c.rect.height,
                    x: c.rect.x,
                    y: c.rect.y,
                },
            );
        }
        proof {
            let taken = s.take(i + 1);
            assert(taken.last() == s[i as int]);
            assert(taken.drop_last() =~= s.take(i as int));
        }
        i += 1;
    }
    proof {
        assert(s.take(n as int) =~= s);
    }
    found
}

/// A child's geometry, which the server reports relative to its parent,
/// shifted into root coordinates by the parent's position.
pub fn relative_to_point(rect: Rect, parent: HackSawResult, window: u32) -> (r: HackSawResult)
    requires
        i16::MIN <= parent.x + rect.x <= i16::MAX,
        i16::MIN <= parent.y + rect.y <= i16::MAX,
    ensures
        r == (HackSawResult {
            window,
            width: rect.width,
            height: rect.height,
            x: (parent.x + rect.x) as i16,
            y: (parent.y + rect.y) as i16,
        }),
{
    HackSawResult {
        window,
        width: rect.width,
        height: rect.height,
        x: parent.x + rect.x,
        y: parent.y + rect.y,
    }
}

/// The whole screen as a selection.
pub fn full_screen_result(window: u32, screen_width: u16, screen_height: u16) -> (r: HackSawResult)
    ensures
        r == (HackSawResult { window, width: screen_width, height: screen_height, x: 0, y: 0 }),
{
    HackSawResult { window, width: screen_width, height: screen_height, x: 0, y: 0 }
}

} // verus!
