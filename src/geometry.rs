use vstd::prelude::*;

verus! {

/// A point or vector in the plane. The coordinate type is left to the caller:
/// this crate only arranges coordinates, it never computes with them.
#[derive(Clone, Copy, Debug, PartialEq)]
pub struct Point<T> {
    pub x: T,
    pub y: T,
}

impl<T: Copy> Point<T> {
    pub fn new(x: T, y: T) -> (p: Point<T>)
        ensures
            p == (Point { x, y }),
    {
        Point { x, y }
    }
}

/// An axis-aligned rectangle given by two opposite corners.
#[derive(Clone, Copy, Debug, PartialEq)]
pub struct Rect<T> {
    pub x1: T,
    pub y1: T,
    pub x2: T,
    pub y2: T,
}

impl<T: Copy> Rect<T> {
    pub fn new(x1: T, y1: T, x2: T, y2: T) -> (r: Rect<T>)
        ensures
            r == (Rect { x1, y1, x2, y2 }),
    {
        Rect { x1, y1, x2, y2 }
    }
}

/// A line segment between two endpoints.
#[derive(Clone, Copy, Debug, PartialEq)]
pub struct Line<T> {
    pub p1: Point<T>,
    pub p2: Point<T>,
}

impl<T: Copy> Line<T> {
    pub fn new(x1: T, y1: T, x2: T, y2: T) -> (l: Line<T>)
        ensures
            l == (Line { p1: Point { x: x1, y: y1 }, p2: Point { x: x2, y: y2 } }),
    {
        Line { p1: Point::new(x1, y1), p2: Point::new(x2, y2) }
    }
}

/// The outline of a stroked segment: its four corners, two at each end.
/// `start_a` and `end_a` lie on one side of the segment, `start_b` and
/// `end_b` on the other, each at half the stroke width from it.
#[derive(Clone, Copy, Debug, PartialEq)]
pub struct Band<T> {
    pub start_a: Point<T>,
    pub start_b: Point<T>,
    pub end_a: Point<T>,
    pub end_b: Point<T>,
}

/// The four border bands of a stroked rectangle.
#[derive(Clone, Copy, Debug, PartialEq)]
pub struct Frame<T> {
    pub left: Band<T>,
    pub right: Band<T>,
    pub top: Band<T>,
    pub bottom: Band<T>,
}

} // verus!
