use vstd::prelude::*;

verus! {

/// A pair of unsigned 32-bit coordinates (pixels, sizes).
#[derive(Clone, Copy, Debug, PartialEq, Eq, Structural)]
pub struct UVec2 {
    pub x: u32,
    pub y: u32,
}

/// A pair of signed 32-bit coordinates (pointer deltas, flipped positions).
#[derive(Clone, Copy, Debug, PartialEq, Eq, Structural)]
pub struct IVec2 {
    pub x: i32,
    pub y: i32,
}

impl UVec2 {
    pub fn new(x: u32, y: u32) -> (r: UVec2)
        ensures
            r.x == x,
            r.y == y,
    {
        UVec2 { x, y }
    }

    pub fn splat(v: u32) -> (r: UVec2)
        ensures
            r.x == v,
            r.y == v,
    {
        UVec2 { x: v, y: v }
    }
}

impl IVec2 {
    pub fn new(x: i32, y: i32) -> (r: IVec2)
        ensures
            r.x == x,
            r.y == y,
    {
        IVec2 { x, y }
    }
}

/// Half of `v`, rounded toward zero (Rust's integer division by two).
pub open spec fn half_toward_zero(v: int) -> int {
    if v >= 0 {
        v / 2
    } else {
        -((-v) / 2)
    }
}

/// Whether the half-open intervals `[a, a + la)` and `[b, b + lb)` overlap.
pub open spec fn spans_overlap(a: int, la: int, b: int, lb: int) -> bool {
    a < b + lb && a + la > b
}

/// An axis-aligned pixel rectangle, half-open on its upper edges.
#[derive(Clone, Copy, Debug, PartialEq, Eq, Structural)]
pub struct URect {
    pub pos: UVec2,
    pub size: UVec2,
}

/// An axis-aligned integer rectangle with signed coordinates.
#[derive(Clone, Copy, Debug, PartialEq, Eq, Structural)]
pub struct IRect {
    pub pos: IVec2,
    pub size: IVec2,
}

impl URect {
    /// The pixel `(px, py)` lies inside the rectangle.
    pub open spec fn contains_point(self, px: int, py: int) -> bool {
        &&& self.pos.x <= px < self.pos.x + self.size.x
        &&& self.pos.y <= py < self.pos.y + self.size.y
    }

    /// The interiors of the two rectangles overlap.
    pub open spec fn overlaps(self, other: URect) -> bool {
        &&& spans_overlap(self.pos.x as int, self.size.x as int, other.pos.x as int, other.size.x as int)
        &&& spans_overlap(self.pos.y as int, self.size.y as int, other.pos.y as int, other.size.y as int)
    }

    pub fn from_pos_size(pos: UVec2, size: UVec2) -> (r: URect)
        ensures
            r.pos == pos,
            r.size == size,
    {
        URect { pos, size }
    }

    pub fn intersects(&self, other: &URect) -> (r: bool)
        ensures
            r == self.overlaps(*other),
    {
        (self.pos.x as u64) < other.pos.x as u64 + other.size.x as u64
            && self.pos.x as u64 + self.size.x as u64 > other.pos.x as u64
            && (self.pos.y as u64) < other.pos.y as u64 + other.size.y as u64
            && self.pos.y as u64 + self.size.y as u64 > other.pos.y as u64
    }

    pub fn center(&self) -> (r: UVec2)
        requires
            self.pos.x + self.size.x / 2 <= u32::MAX,
            self.pos.y + self.size.y / 2 <= u32::MAX,
        ensures
            r.x == self.pos.x + self.size.x / 2,
            r.y == self.pos.y + self.size.y / 2,
    {
        UVec2 { x: self.pos.x + self.size.x / 2, y: self.pos.y + self.size.y / 2 }
    }

    pub fn upper_right(&self) -> (r: UVec2)
        requires
            self.pos.x + self.size.x <= u32::MAX,
            self.pos.y + self.size.y <= u32::MAX,
        ensures
            r.x == self.pos.x + self.size.x,
            r.y == self.pos.y + self.size.y,
    {
        UVec2 { x: self.pos.x + self.size.x, y: self.pos.y + self.size.y }
    }
}

impl IRect {
    /// The interiors of the two rectangles overlap.
    pub open spec fn overlaps(self, other: IRect) -> bool {
        &&& spans_overlap(self.pos.x as int, self.size.x as int, other.pos.x as int, other.size.x as int)
        &&& spans_overlap(self.pos.y as int, self.size.y as int, other.pos.y as int, other.size.y as int)
    }

    pub fn from_pos_size(pos: IVec2, size: IVec2) -> (r: IRect)
        ensures
            r.pos == pos,
            r.size == size,
    {
        IRect { pos, size }
    }

    /// The same rectangle with signed coordinates; every coordinate must
    /// fit in an `i32`.
    pub fn from_urect(value: URect) -> (r: IRect)
        requires
            value.pos.x <= i32::MAX,
            value.pos.y <= i32::MAX,
            value.size.x <= i32::MAX,
            value.size.y <= i32::MAX,
        ensures
            r.pos.x == value.pos.x,
            r.pos.y == value.pos.y,
            r.size.x == value.size.x,
            r.size.y == value.size.y,
    {
        IRect {
            pos: IVec2 { x: value.pos.x as i32, y: value.pos.y as i32 },
            size: IVec2 { x: value.size.x as i32, y: value.size.y as i32 },
        }
    }

    pub fn intersects(&self, other: &IRect) -> (r: bool)
        ensures
            r == self.overlaps(*other),
    {
        (self.pos.x as i64) < other.pos.x as i64 + other.size.x as i64
            && self.pos.x as i64 + self.size.x as i64 > other.pos.x as i64
            && (self.pos.y as i64) < other.pos.y as i64 + other.size.y as i64
            && self.pos.y as i64 + self.size.y as i64 > other.pos.y as i64
    }

    pub fn center(&self) -> (r: IVec2)
        requires
            i32::MIN <= self.pos.x + half_toward_zero(self.size.x as int) <= i32::MAX,
            i32::MIN <= self.pos.y + half_toward_zero(self.size.y as int) <= i32::MAX,
        ensures
            r.x == self.pos.x + half_toward_zero(self.size.x as int),
            r.y == self.pos.y + half_toward_zero(self.size.y as int),
    {
        IVec2 { x: self.pos.x + self.size.x / 2, y: self.pos.y + self.size.y / 2 }
    }
}

} // verus!
