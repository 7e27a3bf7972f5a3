//! Points and rectangles on a clamped integer grid.
//!
//! Coordinates live in `[POSITION_MIN, POSITION_MAX]` and sizes in
//! `[1, SIZE_MAX]`, half the range of the machine integers, so that the far
//! edge of a rectangle always fits in an `i32`. Values outside are clamped
//! to the nearest bound; nothing wraps around.

use vstd::prelude::*;

verus! {

/// Largest coordinate of a point or of a rectangle's corner.
pub const POSITION_MAX: i32 = 1073741823;

/// Smallest coordinate of a point or of a rectangle's corner.
pub const POSITION_MIN: i32 = -1073741824;

/// Largest width or height of a rectangle.
pub const SIZE_MAX: u32 = 1073741823;

/// Whether `v` is a coordinate that is kept as it is.
pub open spec fn in_position_range(v: int) -> bool {
    POSITION_MIN <= v <= POSITION_MAX
}

/// Whether `v` is a width or height that is kept as it is.
pub open spec fn in_size_range(v: int) -> bool {
    1 <= v <= SIZE_MAX
}

/// The coordinate nearest to `v`.
pub open spec fn clamp_position(v: int) -> int {
    if v > POSITION_MAX {
        POSITION_MAX as int
    } else if v < POSITION_MIN {
        POSITION_MIN as int
    } else {
        v
    }
}

/// The width or height nearest to `v`: never zero.
pub open spec fn clamp_size(v: int) -> int {
    if v < 1 {
        1
    } else if v > SIZE_MAX {
        SIZE_MAX as int
    } else {
        v
    }
}

pub(crate) fn position_from(v: i64) -> (r: i32)
    ensures
        r == clamp_position(v as int),
{
    if v > POSITION_MAX as i64 {
        POSITION_MAX
    } else if v < POSITION_MIN as i64 {
        POSITION_MIN
    } else {
        v as i32
    }
}

fn size_from(v: u32) -> (r: u32)
    ensures
        r == clamp_size(v as int),
{
    if v == 0 {
        1
    } else if v > SIZE_MAX {
        SIZE_MAX
    } else {
        v
    }
}

/// A point as a pair of mathematical integers.
pub struct PointView {
    pub x: int,
    pub y: int,
}

impl PointView {
    /// Both coordinates are within the grid.
    pub open spec fn in_range(self) -> bool {
        in_position_range(self.x) && in_position_range(self.y)
    }

    /// The point of the grid nearest to this one.
    pub open spec fn clamped(self) -> PointView {
        PointView { x: clamp_position(self.x), y: clamp_position(self.y) }
    }

    /// This point moved by `(dx, dy)` and kept on the grid.
    pub open spec fn offset(self, dx: int, dy: int) -> PointView {
        PointView { x: clamp_position(self.x + dx), y: clamp_position(self.y + dy) }
    }
}

/// A point of the grid.
#[derive(Clone, Copy, Debug, PartialEq, Eq, Structural)]
pub struct Point {
    pub x: i32,
    pub y: i32,
}

impl View for Point {
    type V = PointView;

    open spec fn view(&self) -> PointView {
        PointView { x: self.x as int, y: self.y as int }
    }
}

impl Point {
    /// Both coordinates are within the grid.
    pub open spec fn wf(&self) -> bool {
        self@.in_range()
    }

    /// The point of the grid nearest to `(x, y)`.
    pub fn new(x: i32, y: i32) -> (p: Point)
        ensures
            p.wf(),
            p@ == (PointView { x: x as int, y: y as int }).clamped(),
    {
        Point { x: position_from(x as i64), y: position_from(y as i64) }
    }

    /// Whether both coordinates are within the grid: what `wf` says, computed.
    pub fn is_valid(&self) -> (ok: bool)
        ensures
            ok == self.wf(),
    {
        POSITION_MIN <= self.x && self.x <= POSITION_MAX && POSITION_MIN <= self.y && self.y
            <= POSITION_MAX
    }

    /// This point moved by `(dx, dy)`; a coordinate that would leave the grid
    /// stops at its edge.
    pub fn offset(self, dx: i32, dy: i32) -> (p: Point)
        ensures
            p.wf(),
            p@ == self@.offset(dx as int, dy as int),
    {
        Point {
            x: position_from(self.x as i64 + dx as i64),
            y: position_from(self.y as i64 + dy as i64),
        }
    }
}

/// A rectangle as mathematical integers: its top-left corner and its size.
pub struct RectView {
    pub x: int,
    pub y: int,
    pub width: int,
    pub height: int,
}

impl RectView {
    /// The corner is within the grid and the size is neither zero nor too large.
    pub open spec fn in_range(self) -> bool {
        &&& in_position_range(self.x)
        &&& in_position_range(self.y)
        &&& in_size_range(self.width)
        &&& in_size_range(self.height)
    }

    /// The rectangle nearest to this one that `in_range` accepts.
    pub open spec fn clamped(self) -> RectView {
        RectView {
            x: clamp_position(self.x),
            y: clamp_position(self.y),
            width: clamp_size(self.width),
            height: clamp_size(self.height),
        }
    }

    /// The rectangle of the given size, clamped first, whose middle is
    /// `center`. Where a side is odd the middle is rounded down, so the
    /// corner lies half a side, rounded down, before the centre.
    pub open spec fn centered_on(center: PointView, width: int, height: int) -> RectView {
        let w = clamp_size(width);
        let h = clamp_size(height);
        RectView {
            x: clamp_position(clamp_position(center.x) - w / 2),
            y: clamp_position(clamp_position(center.y) - h / 2),
            width: w,
            height: h,
        }
    }

    /// The middle of the rectangle, rounded down.
    pub open spec fn center(self) -> PointView {
        PointView { x: self.x + self.width / 2, y: self.y + self.height / 2 }
    }
}

/// A rectangle of the grid that is never empty.
#[derive(Clone, Copy, Debug, PartialEq, Eq, Structural)]
pub struct Rect {
    pub x: i32,
    pub y: i32,
    pub width: u32,
    pub height: u32,
}

impl View for Rect {
    type V = RectView;

    open spec fn view(&self) -> RectView {
        RectView {
            x: self.x as int,
            y: self.y as int,
            width: self.width as int,
            height: self.height as int,
        }
    }
}

impl Rect {
    /// The corner is within the grid and the size is neither zero nor too large.
    pub open spec fn wf(&self) -> bool {
        self@.in_range()
    }

    /// The rectangle with top-left corner `(x, y)` and the given size, each
    /// value clamped to what a rectangle can hold.
    pub fn new(x: i32, y: i32, width: u32, height: u32) -> (r: Rect)
        ensures
            r.wf(),
            r@ == (RectView {
                x: x as int,
                y: y as int,
                width: width as int,
                height: height as int,
            }).clamped(),
    {
        Rect {
            x: position_from(x as i64),
            y: position_from(y as i64),
            width: size_from(width),
            height: size_from(height),
        }
    }

    /// Whether the corner is within the grid and the size neither zero nor
    /// too large: what `wf` says, computed.
    pub fn is_valid(&self) -> (ok: bool)
        ensures
            ok == self.wf(),
    {
        POSITION_MIN <= self.x && self.x <= POSITION_MAX && POSITION_MIN <= self.y && self.y
            <= POSITION_MAX && 1 <= self.width && self.width <= SIZE_MAX && 1 <= self.height
            && self.height <= SIZE_MAX
    }

    /// The rectangle of the given size around `center`.
    pub fn from_center(center: Point, width: u32, height: u32) -> (r: Rect)
        ensures
            r.wf(),
            r@ == RectView::centered_on(center@, width as int, height as int),
    {
        let w: u32 = size_from(width);
        let h: u32 = size_from(height);
        let cx: i32 = position_from(center.x as i64);
        let cy: i32 = position_from(center.y as i64);
        Rect {
            x: position_from(cx as i64 - (w / 2) as i64),
            y: position_from(cy as i64 - (h / 2) as i64),
            width: w,
            height: h,
        }
    }

    /// Width and height.
    pub fn size(&self) -> (s: (u32, u32))
        ensures
            s == (self.width, self.height),
    {
        (self.width, self.height)
    }

    /// The middle of the rectangle, rounded down and kept on the grid.
    pub fn center(&self) -> (p: Point)
        ensures
            p.wf(),
            p@ == self@.center().clamped(),
    {
        Point {
            x: position_from(self.x as i64 + (self.width / 2) as i64),
            y: position_from(self.y as i64 + (self.height / 2) as i64),
        }
    }
}

} // verus!
