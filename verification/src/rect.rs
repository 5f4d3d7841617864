//! Integer pixel rectangles.
//!
//! A rectangle stands for the set of pixels it covers. Every operation here is
//! stated over that set, so two empty rectangles with different corners are
//! different values that cover the same (empty) set.

use vstd::prelude::*;

verus! {

/// A half-open rectangle of pixels: columns `x0..x1`, rows `y0..y1`.
#[derive(Clone, Copy, Debug, PartialEq, Eq, Structural)]
pub struct IRect {
    pub x0: i32,
    pub y0: i32,
    pub x1: i32,
    pub y1: i32,
}

pub open spec fn min_i32(a: i32, b: i32) -> i32 {
    if a <= b {
        a
    } else {
        b
    }
}

pub open spec fn max_i32(a: i32, b: i32) -> i32 {
    if a >= b {
        a
    } else {
        b
    }
}

impl IRect {
    /// Whether the rectangle covers no pixel.
    pub open spec fn empty(self) -> bool {
        self.x0 >= self.x1 || self.y0 >= self.y1
    }

    /// Whether the pixel at column `x`, row `y` is covered.
    pub open spec fn contains(self, x: int, y: int) -> bool {
        self.x0 <= x < self.x1 && self.y0 <= y < self.y1
    }

    /// Whether every pixel of `self` is a pixel of `other`.
    pub open spec fn within(self, other: IRect) -> bool {
        forall|x: int, y: int| #[trigger] self.contains(x, y) ==> other.contains(x, y)
    }

    /// The rectangle of the pixels that `self` and `other` share.
    pub open spec fn intersection(self, other: IRect) -> IRect {
        IRect {
            x0: max_i32(self.x0, other.x0),
            y0: max_i32(self.y0, other.y0),
            x1: min_i32(self.x1, other.x1),
            y1: min_i32(self.y1, other.y1),
        }
    }

    /// The smallest rectangle that covers the pixels of both `self` and
    /// `other`. An empty operand adds nothing: the other one is the result.
    pub open spec fn bounding_union(self, other: IRect) -> IRect {
        if self.empty() {
            other
        } else if other.empty() {
            self
        } else {
            IRect {
                x0: min_i32(self.x0, other.x0),
                y0: min_i32(self.y0, other.y0),
                x1: max_i32(self.x1, other.x1),
                y1: max_i32(self.y1, other.y1),
            }
        }
    }

    pub fn new(x0: i32, y0: i32, x1: i32, y1: i32) -> (r: IRect)
        ensures
            r == (IRect { x0, y0, x1, y1 }),
    {
        IRect { x0, y0, x1, y1 }
    }

    pub fn is_empty(&self) -> (r: bool)
        ensures
            r == self.empty(),
            r <==> forall|x: int, y: int| !self.contains(x, y),
    {
        proof {
            if !self.empty() {
                assert(self.contains(self.x0 as int, self.y0 as int));
            }
        }
        self.x0 >= self.x1 || self.y0 >= self.y1
    }

    /// Whether the pixel at column `x`, row `y` of a surface is covered.
    pub fn covers(&self, x: usize, y: usize) -> (r: bool)
        ensures
            r == self.contains(x as int, y as int),
    {
        let xw: i128 = x as i128;
        let yw: i128 = y as i128;
        self.x0 as i128 <= xw && xw < self.x1 as i128 && self.y0 as i128 <= yw && yw
            < self.y1 as i128
    }

    pub fn intersect(&self, other: &IRect) -> (r: IRect)
        ensures
            r == self.intersection(*other),
            forall|x: int, y: int|
                r.contains(x, y) <==> self.contains(x, y) && other.contains(x, y),
    {
        IRect {
            x0: if self.x0 >= other.x0 {
                self.x0
            } else {
                other.x0
            },
            y0: if self.y0 >= other.y0 {
                self.y0
            } else {
                other.y0
            },
            x1: if self.x1 <= other.x1 {
                self.x1
            } else {
                other.x1
            },
            y1: if self.y1 <= other.y1 {
                self.y1
            } else {
                other.y1
            },
        }
    }

    pub fn union(&self, other: &IRect) -> (r: IRect)
        ensures
            r == self.bounding_union(*other),
            self.within(r),
            other.within(r),
    {
        if self.is_empty() {
            *other
        } else if other.is_empty() {
            *self
        } else {
            IRect {
                x0: if self.x0 <= other.x0 {
                    self.x0
                } else {
                    other.x0
                },
                y0: if self.y0 <= other.y0 {
                    self.y0
                } else {
                    other.y0
                },
                x1: if self.x1 >= other.x1 {
                    self.x1
                } else {
                    other.x1
                },
                y1: if self.y1 >= other.y1 {
                    self.y1
                } else {
                    other.y1
                },
            }
        }
    }
}

/// The intersection covers exactly the pixels that both rectangles cover.
pub proof fn lemma_intersection_is_set_intersection(a: IRect, b: IRect)
    ensures
        forall|x: int, y: int|
            a.intersection(b).contains(x, y) <==> a.contains(x, y) && b.contains(x, y),
{
}

/// The bounding union covers both operands, and every rectangle that covers
/// both operands covers the bounding union: it is the least such rectangle.
pub proof fn lemma_bounding_union_is_least(a: IRect, b: IRect, c: IRect)
    ensures
        a.within(a.bounding_union(b)),
        b.within(a.bounding_union(b)),
        a.within(c) && b.within(c) ==> a.bounding_union(b).within(c),
{
    let u = a.bounding_union(b);
    if a.within(c) && b.within(c) && !u.empty() {
        if !a.empty() {
            assert(a.contains(a.x0 as int, a.y0 as int));
            assert(a.contains(a.x1 - 1, a.y1 - 1));
        }
        if !b.empty() {
            assert(b.contains(b.x0 as int, b.y0 as int));
            assert(b.contains(b.x1 - 1, b.y1 - 1));
        }
    }
}

/// Intersection and bounding union do not depend on the order of their
/// operands, as far as the covered pixels go.
pub proof fn lemma_rect_ops_commute(a: IRect, b: IRect)
    ensures
        a.intersection(b) == b.intersection(a),
        forall|x: int, y: int|
            a.bounding_union(b).contains(x, y) <==> b.bounding_union(a).contains(x, y),
{
}

} // verus!
