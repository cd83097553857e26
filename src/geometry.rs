//! Points, rectangles and the records of a sprite sheet's frame table.
use vstd::prelude::*;

verus! {

/// A position in canvas pixels.
#[derive(Clone, Copy, Debug, PartialEq, Eq, Structural)]
pub struct Point {
    pub x: i16,
    pub y: i16,
}

impl Default for Point {
    fn default() -> (r: Point)
        ensures
            r == (Point { x: 0, y: 0 }),
    {
        Point { x: 0, y: 0 }
    }
}

/// A rectangle given by its top-left corner and its size.
#[derive(Clone, Copy, Debug, PartialEq, Eq, Structural)]
pub struct Rect {
    pub position: Point,
    pub width: i16,
    pub height: i16,
}

impl Default for Rect {
    fn default() -> (r: Rect)
        ensures
            r == (Rect { position: Point { x: 0, y: 0 }, width: 0, height: 0 }),
    {
        Rect { position: Point { x: 0, y: 0 }, width: 0, height: 0 }
    }
}

/// Whether two rectangles overlap in an area of positive size.
pub open spec fn overlaps(a: Rect, b: Rect) -> bool {
    &&& a.position.x < b.position.x + b.width
    &&& a.position.x + a.width > b.position.x
    &&& a.position.y < b.position.y + b.height
    &&& a.position.y + a.height > b.position.y
}

impl Rect {
    pub fn new(position: Point, width: i16, height: i16) -> (r: Rect)
        ensures
            r == (Rect { position, width, height }),
    {
        Rect { position, width, height }
    }

    pub fn new_from_x_y(x: i16, y: i16, width: i16, height: i16) -> (r: Rect)
        ensures
            r == (Rect { position: Point { x, y }, width, height }),
    {
        Rect::new(Point { x, y }, width, height)
    }

    /// Whether the two rectangles overlap; edges that only touch do not.
    pub fn intersects(&self, rect: &Rect) -> (r: bool)
        ensures
            r == overlaps(*self, *rect),
    {
        let (ax, ay) = (self.x() as i32, self.y() as i32);
        let (bx, by) = (rect.x() as i32, rect.y() as i32);
        ax < bx + rect.width as i32 && ax + self.width as i32 > bx && ay < by + rect.height as i32
            && ay + self.height as i32 > by
    }

    /// The x coordinate of the right edge.
    pub fn right(&self) -> (r: i16)
        requires
            i16::MIN <= self.position.x + self.width <= i16::MAX,
        ensures
            r == self.position.x + self.width,
    {
        self.x() + self.width
    }

    /// The y coordinate of the bottom edge.
    pub fn bottom(&self) -> (r: i16)
        requires
            i16::MIN <= self.position.y + self.height <= i16::MAX,
        ensures
            r == self.position.y + self.height,
    {
        self.y() + self.height
    }

    pub fn x(&self) -> (r: i16)
        ensures
            r == self.position.x,
    {
        self.position.x
    }

    pub fn y(&self) -> (r: i16)
        ensures
            r == self.position.y,
    {
        self.position.y
    }

    /// Moves the rectangle horizontally so that its left edge is at `x`.
    pub fn set_x(&mut self, x: i16)
        ensures
            *final(self) == (Rect { position: Point { x, y: old(self).position.y }, ..*old(self) }),
    {
        self.position.x = x;
    }
}

/// A rectangle as a sprite sheet's frame table writes it.
#[derive(Clone, Copy, Debug, PartialEq, Eq, Structural)]
pub struct SheetRect {
    pub x: i16,
    pub y: i16,
    pub w: i16,
    pub h: i16,
}

/// One frame of a sprite sheet: where it lies in the sheet's image, and
/// where the trimmed sprite sits within its untrimmed bounds.
#[derive(Clone, Copy, Debug, PartialEq, Eq, Structural)]
pub struct Cell {
    pub frame: SheetRect,
    pub sprite_source_size: SheetRect,
}

/// A sprite sheet's frame table: named cells, in the order listed; a
/// lookup by name finds the first.
#[derive(Debug)]
pub struct Sheet {
    pub frames: Vec<(String, Cell)>,
}

} // verus!
