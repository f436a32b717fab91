use vstd::prelude::*;

verus! {

/// A point whose coordinates are of one type.
#[derive(Debug)]
pub struct Point<T> {
    pub x: T,
    pub y: T,
}

/// A point whose coordinates are of two types.
#[derive(Debug)]
pub struct ComboPoint<T, U> {
    pub x: T,
    pub y: U,
}

/// A point, or none.
#[derive(Debug)]
pub enum Coordinate<T> {
    Point(Point<T>),
    Absent,
}

impl<T> Point<T> {
    /// The first coordinate.
    pub fn x(&self) -> (x: &T)
        ensures
            *x == self.x,
    {
        &self.x
    }
}

/// The first coordinate of the point (12, 24), read out of a `Coordinate`.
pub fn run() -> (x: Option<i32>)
    ensures
        x == Some(12i32),
{
    let not_combo = Coordinate::Point(Point { x: 12, y: 24 });
    match not_combo {
        Coordinate::Point(p) => Some(*p.x()),
        Coordinate::Absent => None,
    }
}

} // verus!
