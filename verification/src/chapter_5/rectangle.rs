use vstd::prelude::*;

verus! {

/// A rectangle with sides of whole length.
#[derive(Clone, Copy, Debug, PartialEq, Eq, Structural)]
pub struct Rectangle {
    pub width: u32,
    pub height: u32,
}

impl Rectangle {
    /// The area, where it fits in a `u32`.
    pub fn area(&self) -> (area: u32)
        requires
            self.width * self.height <= u32::MAX,
        ensures
            area == self.width * self.height,
    {
        self.width * self.height
    }

    /// Turns the rectangle by a quarter: width and height change places.
    pub fn rotate(&mut self)
        ensures
            final(self).width == old(self).height,
            final(self).height == old(self).width,
    {
        let temp_w: u32 = self.width;
        let temp_h: u32 = self.height;
        self.width = temp_h;
        self.height = temp_w;
    }

    /// Whether this rectangle is narrower and lower than `other`.
    pub fn can_fit_inside(&self, other: &Rectangle) -> (fits: bool)
        ensures
            fits == (self.width < other.width && self.height < other.height),
    {
        if self.width < other.width && self.height < other.height {
            return true;
        }
        false
    }
}

/// What the tour of a 10 by 4 rectangle `a` and a 5 by 12 rectangle `b` finds.
#[derive(Clone, Copy, Debug, PartialEq, Eq, Structural)]
pub struct Tour {
    /// The area of `a`.
    pub area: u32,
    /// `a` and `b` as they start.
    pub a: Rectangle,
    pub b: Rectangle,
    /// Whether `a` fits inside `b` as it starts.
    pub fits: bool,
    /// `a` after one quarter turn, and whether it then fits inside `b`.
    pub turned: Rectangle,
    pub fits_turned: bool,
    /// `a` after a second quarter turn.
    pub turned_back: Rectangle,
}

/// Measures `a`, tries it against `b`, turns it and tries again, and turns it back.
pub fn run() -> (tour: Tour)
    ensures
        tour == (Tour {
            area: 40,
            a: Rectangle { width: 10, height: 4 },
            b: Rectangle { width: 5, height: 12 },
            fits: false,
            turned: Rectangle { width: 4, height: 10 },
            fits_turned: true,
            turned_back: Rectangle { width: 10, height: 4 },
        }),
{
    let mut rect_a = Rectangle { width: 10, height: 4 };
    let rect_b = Rectangle { width: 5, height: 12 };
    let a = rect_a;
    let area = rect_a.area();
    let fits = rect_a.can_fit_inside(&rect_b);
    rect_a.rotate();
    let turned = rect_a;
    let fits_turned = rect_a.can_fit_inside(&rect_b);
    rect_a.rotate();
    Tour { area, a, b: rect_b, fits, turned, fits_turned, turned_back: rect_a }
}

} // verus!
