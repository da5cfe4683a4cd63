//! Rectangle arithmetic for the selection overlay.
//!
//! Points and rectangles use the value ranges of the X protocol: positions
//! are signed 16-bit, extents unsigned 16-bit.  Specifications widen to
//! mathematical integers, so every function here proves that its results
//! stay inside those ranges.

use vstd::math::{max, min};
use vstd::prelude::*;

verus! {

/// A point on the root window, in pixels.
#[derive(Clone, Copy, Debug, PartialEq, Eq, Structural)]
pub struct Point {
    pub x: i16,
    pub y: i16,
}

/// A rectangle on the root window: origin and extent.
#[derive(Clone, Copy, Debug, PartialEq, Eq, Structural)]
pub struct Rect {
    pub x: i16,
    pub y: i16,
    pub width: u16,
    pub height: u16,
}

/// A window together with the rectangle it covers on the root window.
#[derive(Clone, Copy, Debug, PartialEq, Eq, Structural)]
pub struct HacksawContainer {
    pub window: u32,
    pub rect: Rect,
}

/// Orders two coordinates into (smaller, larger).
pub fn min_max(a: i16, b: i16) -> (r: (i16, i16))
    ensures
        r.0 == min(a as int, b as int),
        r.1 == max(a as int, b as int),
{
    if a < b {
        (a, b)
    } else {
        (b, a)
    }
}

/// `p` lies inside `r`: strictly right of and below the origin, and no
/// further from it than the extent.
pub open spec fn rect_contains(r: Rect, p: Point) -> bool {
    &&& r.x < p.x
    &&& r.y < p.y
    &&& p.x - r.x <= r.width
    &&& p.y - r.y <= r.height
}

/// Decides `rect_contains`, widening to 32 bits so that no span overflows.
pub fn contains_point(container: Rect, containing: Point) -> (b: bool)
    ensures
        b == rect_contains(container, containing),
{
    container.x < containing.x && container.y < containing.y
        && (containing.x as i32) - (container.x as i32) <= container.width as i32
        && (containing.y as i32) - (container.y as i32) <= container.height as i32
}

impl HacksawContainer {
    pub fn x(&self) -> (v: i16)
        ensures
            v == self.rect.x,
    {
        self.rect.x
    }

    pub fn y(&self) -> (v: i16)
        ensures
            v == self.rect.y,
    {
        self.rect.y
    }

    pub fn width(&self) -> (v: u16)
        ensures
            v == self.rect.width,
    {
        self.rect.width
    }

    pub fn height(&self) -> (v: u16)
        ensures
            v == self.rect.height,
    {
        self.rect.height
    }

    /// This container's rectangle, shifted by the origin of `parent`, so
    /// that coordinates relative to `parent` become root coordinates.
    pub fn relative_to(&self, parent: HacksawContainer) -> (r: HacksawContainer)
        requires
            i16::MIN <= parent.rect.x + self.rect.x <= i16::MAX,
            i16::MIN <= parent.rect.y + self.rect.y <= i16::MAX,
        ensures
            r.window == self.window,
            r.rect == (Rect {
                x: (parent.rect.x + self.rect.x) as i16,
                y: (parent.rect.y + self.rect.y) as i16,
                width: self.rect.width,
                height: self.rect.height,
            }),
    {
        HacksawContainer {
            window: self.window,
            rect: Rect {
                x: parent.rect.x + self.rect.x,
                y: parent.rect.y + self.rect.y,
                width: self.rect.width,
                height: self.rect.height,
            },
        }
    }

    /// Whether `point` lies inside this container's rectangle.
    pub fn contains(&self, point: Point) -> (b: bool)
        ensures
            b == rect_contains(self.rect, point),
    {
        contains_point(self.rect, point)
    }
}

/// A window's rectangle grown by its border on all four sides, as reported
/// geometry excludes the border.
pub fn outer_geometry(window: u32, x: i16, y: i16, width: u16, height: u16, border_width: u16) -> (r:
    HacksawContainer)
    requires
        width + 2 * border_width <= u16::MAX,
        height + 2 * border_width <= u16::MAX,
    ensures
        r.window == window,
        r.rect == (Rect {
            x: x,
            y: y,
            width: (width + 2 * border_width) as u16,
            height: (height + 2 * border_width) as u16,
        }),
{
    HacksawContainer {
        window,
        rect: Rect { x, y, width: width + 2 * border_width, height: height + 2 * border_width },
    }
}

/// The two crosshair guide rectangles for a pointer at `(px, py)`: a
/// vertical band of width `gw` across the whole screen height and a
/// horizontal band across the whole width, both centred on the pointer.
pub open spec fn spec_guide_rects(
    screen_width: int,
    screen_height: int,
    px: int,
    py: int,
    gw: int,
) -> Seq<Rect> {
    seq![
        (Rect { x: (px - gw / 2) as i16, y: 0, width: gw as u16, height: screen_height as u16 }),
        (Rect { x: 0, y: (py - gw / 2) as i16, width: screen_width as u16, height: gw as u16 }),
    ]
}

/// Builds the crosshair guides centred on `pt`.
pub fn guide_rects(screen_width: u16, screen_height: u16, pt: Point, width: u16) -> (v: Vec<Rect>)
    requires
        width <= i16::MAX,
        pt.x - width / 2 >= i16::MIN,
        pt.y - width / 2 >= i16::MIN,
    ensures
        v@ == spec_guide_rects(
            screen_width as int,
            screen_height as int,
            pt.x as int,
            pt.y as int,
            width as int,
        ),
{
    let half = (width as i16) / 2;
    let mut v: Vec<Rect> = Vec::new();
    v.push(Rect { x: pt.x - half, y: 0, width, height: screen_height });
    v.push(Rect { x: 0, y: pt.y - half, width: screen_width, height: width });
    proof {
        assert(v@ =~= spec_guide_rects(
            screen_width as int,
            screen_height as int,
            pt.x as int,
            pt.y as int,
            width as int,
        ));
    }
    v
}

/// Builds the crosshair guides, or `None` when the guide width does not fit
/// a signed 16-bit coordinate.
pub fn try_guide_rects(screen_width: u16, screen_height: u16, pt: Point, width: u16) -> (r: Option<
    Vec<Rect>,
>)
    requires
        width <= i16::MAX ==> pt.x - width / 2 >= i16::MIN && pt.y - width / 2 >= i16::MIN,
    ensures
        width > i16::MAX ==> r is None,
        width <= i16::MAX ==> (match r {
            Some(v) => v@ == spec_guide_rects(
                screen_width as int,
                screen_height as int,
                pt.x as int,
                pt.y as int,
                width as int,
            ),
            None => false,
        }),
{
    if width > 0x7FFF {
        None
    } else {
        Some(guide_rects(screen_width, screen_height, pt, width))
    }
}

/// Guide rectangles spanning `screen`, centred on `pt`: the variant that
/// anchors the bands at the screen rectangle's own origin.
pub fn build_guides(screen: Rect, pt: Point, width: u16) -> (v: Vec<Rect>)
    requires
        width <= i16::MAX,
        pt.x - width / 2 >= i16::MIN,
        pt.y - width / 2 >= i16::MIN,
    ensures
        v@.len() == 2,
        v@[0] == (Rect {
            x: (pt.x - width / 2) as i16,
            y: screen.x,
            width: width,
            height: screen.height,
        }),
        v@[1] == (Rect {
            x: screen.y,
            y: (pt.y - width / 2) as i16,
            width: screen.width,
            height: width,
        }),
{
    let half = (width as i16) / 2;
    let mut v: Vec<Rect> = Vec::new();
    v.push(Rect { x: pt.x - half, y: screen.x, width, height: screen.height });
    v.push(Rect { x: screen.y, y: pt.y - half, width: screen.width, height: width });
    v
}

/// The four one-line-wide rectangles that frame the selection
/// `[left, right] x [top, bottom]` with lines of width `lw`: the left and
/// top lines sit just outside the selection, the right and bottom lines
/// just inside its far edges.
pub open spec fn spec_border_rects(left: int, top: int, right: int, bottom: int, lw: int) -> Seq<
    Rect,
> {
    seq![
        (Rect {
            x: (left - lw) as i16,
            y: top as i16,
            width: lw as u16,
            height: (bottom - top + lw) as u16,
        }),
        (Rect {
            x: (left - lw) as i16,
            y: (top - lw) as i16,
            width: (right - left + lw) as u16,
            height: lw as u16,
        }),
        (Rect {
            x: right as i16,
            y: (top - lw) as i16,
            width: lw as u16,
            height: (bottom - top + lw) as u16,
        }),
        (Rect {
            x: left as i16,
            y: bottom as i16,
            width: (right - left + lw) as u16,
            height: lw as u16,
        }),
    ]
}

/// Builds the rubber-band frame around a selection.
pub fn selection_border_rects(
    left_x: i16,
    top_y: i16,
    right_x: i16,
    bottom_y: i16,
    line_width: u16,
) -> (v: Vec<Rect>)
    requires
        left_x <= right_x,
        top_y <= bottom_y,
        line_width <= i16::MAX,
        left_x - line_width >= i16::MIN,
        top_y - line_width >= i16::MIN,
        (right_x - left_x) + line_width <= u16::MAX,
        (bottom_y - top_y) + line_width <= u16::MAX,
    ensures
        v@ == spec_border_rects(
            left_x as int,
            top_y as int,
            right_x as int,
            bottom_y as int,
            line_width as int,
        ),
{
    let lw = line_width as i16;
    let width: u16 = ((right_x as i32) - (left_x as i32)) as u16;
    let height: u16 = ((bottom_y as i32) - (top_y as i32)) as u16;
    let mut v: Vec<Rect> = Vec::new();
    v.push(Rect { x: left_x - lw, y: top_y, width: line_width, height: height + line_width });
    v.push(Rect { x: left_x - lw, y: top_y - lw, width: width + line_width, height: line_width });
    v.push(Rect { x: right_x, y: top_y - lw, width: line_width, height: height + line_width });
    v.push(Rect { x: left_x, y: bottom_y, width: width + line_width, height: line_width });
    proof {
        assert(v@ =~= spec_border_rects(
            left_x as int,
            top_y as int,
            right_x as int,
            bottom_y as int,
            line_width as int,
        ));
    }
    v
}

} // verus!
