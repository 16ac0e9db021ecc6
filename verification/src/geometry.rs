//! Integer points and rectangles in screen space.
//!
//! The arithmetic is SDL's: coordinates are kept within half of the `i32`
//! range and sizes within `1..=MAX_SIZE`, so that the right and bottom edge of
//! a rectangle always fit in an `i32`. Every operation saturates at these
//! limits and none can overflow.

use vstd::prelude::*;

verus! {

/// Largest coordinate of a point or of a rectangle's corner.
pub const MAX_COORD: i32 = 1073741823;

/// Smallest coordinate of a point or of a rectangle's corner.
pub const MIN_COORD: i32 = -1073741824;

/// Largest width or height of a rectangle.
pub const MAX_SIZE: u32 = 1073741823;

/// `v` brought into `MIN_COORD..=MAX_COORD`.
pub open spec fn clamp_position(v: int) -> int {
    if v > MAX_COORD {
        MAX_COORD as int
    } else if v < MIN_COORD {
        MIN_COORD as int
    } else {
        v
    }
}

/// `v` brought into `1..=MAX_SIZE`: a rectangle is never empty.
pub open spec fn clamp_size(v: int) -> int {
    if v <= 0 {
        1
    } else if v > MAX_SIZE {
        MAX_SIZE as int
    } else {
        v
    }
}

/// A position on the integer grid.
#[derive(Debug, Clone, Copy, PartialEq, Eq, Structural)]
pub struct Point {
    pub x: i32,
    pub y: i32,
}

/// An axis-aligned rectangle, given by its upper left corner and its size.
#[derive(Debug, Clone, Copy, PartialEq, Eq, Structural)]
pub struct Rect {
    pub x: i32,
    pub y: i32,
    pub width: u32,
    pub height: u32,
}

/// Brings a coordinate into `MIN_COORD..=MAX_COORD`.
fn clamp_coord(v: i64) -> (r: i32)
    ensures
        r == clamp_position(v as int),
{
    if v > MAX_COORD as i64 {
        MAX_COORD
    } else if v < MIN_COORD as i64 {
        MIN_COORD
    } else {
        v as i32
    }
}

/// Brings a width or height into `1..=MAX_SIZE`.
fn clamp_extent(v: u32) -> (r: u32)
    ensures
        r == clamp_size(v as int),
{
    if v == 0 {
        1
    } else if v > MAX_SIZE {
        MAX_SIZE
    } else {
        v
    }
}

impl Point {
    /// The point with both coordinates clamped.
    pub open spec fn clamped(x: int, y: int) -> Point {
        Point { x: clamp_position(x) as i32, y: clamp_position(y) as i32 }
    }

    /// This point moved by `(dx, dy)`, every step clamped.
    pub open spec fn shifted(self, dx: int, dy: int) -> Point {
        Point::clamped(clamp_position(self.x as int) + dx, clamp_position(self.y as int) + dy)
    }

    /// True when both coordinates lie in `MIN_COORD..=MAX_COORD`.
    pub open spec fn in_range(self) -> bool {
        MIN_COORD <= self.x <= MAX_COORD && MIN_COORD <= self.y <= MAX_COORD
    }

    /// A point at `(x, y)`, each coordinate clamped into
    /// `MIN_COORD..=MAX_COORD`.
    pub fn new(x: i32, y: i32) -> (p: Point)
        ensures
            p == Point::clamped(x as int, y as int),
            p.in_range(),
    {
        Point { x: clamp_coord(x as i64), y: clamp_coord(y as i64) }
    }

    /// This point moved by `(dx, dy)`.
    pub fn offset(self, dx: i32, dy: i32) -> (q: Point)
        ensures
            q == self.shifted(dx as int, dy as int),
            q.in_range(),
    {
        let x: i32 = clamp_coord(self.x as i64);
        let y: i32 = clamp_coord(self.y as i64);
        Point { x: clamp_coord(x as i64 + dx as i64), y: clamp_coord(y as i64 + dy as i64) }
    }
}

impl Rect {
    /// The rectangle of the clamped size whose corner is clamped.
    pub open spec fn clamped(x: int, y: int, width: int, height: int) -> Rect {
        Rect {
            x: clamp_position(x) as i32,
            y: clamp_position(y) as i32,
            width: clamp_size(width) as u32,
            height: clamp_size(height) as u32,
        }
    }

    /// The rectangle of the clamped size that is centred on `center`.
    pub open spec fn centered(center: Point, width: int, height: int) -> Rect {
        Rect::clamped(
            clamp_position(center.x as int) - clamp_size(width) / 2,
            clamp_position(center.y as int) - clamp_size(height) / 2,
            width,
            height,
        )
    }

    /// True when corner and size are within their limits.
    pub open spec fn in_range(self) -> bool {
        &&& MIN_COORD <= self.x <= MAX_COORD
        &&& MIN_COORD <= self.y <= MAX_COORD
        &&& 1 <= self.width <= MAX_SIZE
        &&& 1 <= self.height <= MAX_SIZE
    }

    /// A rectangle with its upper left corner at `(x, y)`.
    pub fn new(x: i32, y: i32, width: u32, height: u32) -> (r: Rect)
        ensures
            r == Rect::clamped(x as int, y as int, width as int, height as int),
            r.in_range(),
    {
        Rect {
            x: clamp_coord(x as i64),
            y: clamp_coord(y as i64),
            width: clamp_extent(width),
            height: clamp_extent(height),
        }
    }

    /// A rectangle of the given size centred on `center`.
    pub fn from_center(center: Point, width: u32, height: u32) -> (r: Rect)
        ensures
            r == Rect::centered(center, width as int, height as int),
            r.in_range(),
    {
        let w: u32 = clamp_extent(width);
        let h: u32 = clamp_extent(height);
        let cx: i32 = clamp_coord(center.x as i64);
        let cy: i32 = clamp_coord(center.y as i64);
        Rect {
            x: clamp_coord(cx as i64 - (w / 2) as i64),
            y: clamp_coord(cy as i64 - (h / 2) as i64),
            width: w,
            height: h,
        }
    }
}

/// A point that needs no clamping is moved by plain addition.
pub proof fn lemma_shift_in_range(p: Point, dx: int, dy: int)
    requires
        p.in_range(),
        MIN_COORD <= p.x + dx <= MAX_COORD,
        MIN_COORD <= p.y + dy <= MAX_COORD,
    ensures
        p.shifted(dx, dy).x == p.x + dx,
        p.shifted(dx, dy).y == p.y + dy,
{
}

/// The centre of a centred rectangle is the point it was centred on, as long
/// as nothing had to be clamped.
pub proof fn lemma_centered_center(center: Point, width: int, height: int)
    requires
        center.in_range(),
        1 <= width <= MAX_SIZE,
        1 <= height <= MAX_SIZE,
        MIN_COORD <= center.x - width / 2,
        MIN_COORD <= center.y - height / 2,
    ensures
        Rect::centered(center, width, height).x + width / 2 == center.x,
        Rect::centered(center, width, height).y + height / 2 == center.y,
        Rect::centered(center, width, height).width == width,
        Rect::centered(center, width, height).height == height,
{
}

} // verus!
