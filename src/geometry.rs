use vstd::prelude::*;

use crate::ratio::{fits, product_pair, sum_pair, Ratio};

verus! {

/// A point or an extent in the plane.
#[derive(Clone, Copy, Debug)]
pub struct Vector2 {
    pub x: Ratio,
    pub y: Ratio,
}

/// An axis-aligned rectangle: its left and top edges and its extent.
#[derive(Clone, Copy, Debug)]
pub struct Rect {
    pub left: Ratio,
    pub top: Ratio,
    pub width: Ratio,
    pub height: Ratio,
}

/// An affine map of the plane: `(x, y)` goes to
/// `(a * x + b * y + tx, c * x + d * y + ty)`.
#[derive(Clone, Copy, Debug)]
pub struct Transform {
    pub a: Ratio,
    pub b: Ratio,
    pub tx: Ratio,
    pub c: Ratio,
    pub d: Ratio,
    pub ty: Ratio,
}

impl Transform {
    /// The first coordinate of the image of `p`, as an integer numerator
    /// and denominator.
    pub open spec fn image_x(self, p: Vector2) -> (int, int) {
        sum_pair(self.a.times(p.x).plus(self.b.times(p.y)), self.tx)
    }

    /// The second coordinate of the image of `p`, as an integer numerator
    /// and denominator.
    pub open spec fn image_y(self, p: Vector2) -> (int, int) {
        sum_pair(self.c.times(p.x).plus(self.d.times(p.y)), self.ty)
    }
}

impl Vector2 {
    pub open spec fn wf(self) -> bool {
        self.x.wf() && self.y.wf()
    }

    /// Both components stand for the same numbers as those of `o`.
    pub open spec fn same_value(self, o: Vector2) -> bool {
        self.x.same_value(o.x) && self.y.same_value(o.y)
    }

    /// Whether `add` can hold the sum with `o`.
    pub open spec fn sum_fits(self, o: Vector2) -> bool {
        fits(sum_pair(self.x, o.x)) && fits(sum_pair(self.y, o.y))
    }

    /// Whether `scale` can hold the product with `k`.
    pub open spec fn scale_fits(self, k: Ratio) -> bool {
        fits(product_pair(self.x, k)) && fits(product_pair(self.y, k))
    }

    /// The component-wise sum that `add` returns.
    pub open spec fn plus(self, o: Vector2) -> Vector2 {
        Vector2 { x: self.x.plus(o.x), y: self.y.plus(o.y) }
    }

    /// Both components multiplied by `k`, as `scale` returns them.
    pub open spec fn scaled(self, k: Ratio) -> Vector2 {
        Vector2 { x: self.x.times(k), y: self.y.times(k) }
    }

    pub fn new(x: Ratio, y: Ratio) -> (r: Vector2)
        ensures
            r.x == x,
            r.y == y,
    {
        Vector2 { x, y }
    }

    pub fn add(self, o: Vector2) -> (r: Vector2)
        requires
            self.wf(),
            o.wf(),
            self.sum_fits(o),
        ensures
            r == self.plus(o),
            r.wf(),
    {
        Vector2 { x: self.x.add(o.x), y: self.y.add(o.y) }
    }

    pub fn scale(self, k: Ratio) -> (r: Vector2)
        requires
            self.wf(),
            k.wf(),
            self.scale_fits(k),
        ensures
            r == self.scaled(k),
            r.wf(),
    {
        Vector2 { x: self.x.mul(k), y: self.y.mul(k) }
    }
}

impl Rect {
    pub open spec fn wf(self) -> bool {
        self.left.wf() && self.top.wf() && self.width.wf() && self.height.wf()
    }

    /// All four fields stand for the same numbers as those of `o`.
    pub open spec fn same_value(self, o: Rect) -> bool {
        &&& self.left.same_value(o.left)
        &&& self.top.same_value(o.top)
        &&& self.width.same_value(o.width)
        &&& self.height.same_value(o.height)
    }

    /// Whether `center` can hold the rectangle's center point.
    pub open spec fn center_fits(self) -> bool {
        fits(crate::ratio::half_across_pair(self.left, self.width))
            && fits(crate::ratio::half_across_pair(self.top, self.height))
    }

    /// The middle of the rectangle, as `center` returns it.
    pub open spec fn center_spec(self) -> Vector2 {
        Vector2 {
            x: self.left.half_across_spec(self.width),
            y: self.top.half_across_spec(self.height),
        }
    }

    /// The extent of the rectangle, as `size` returns it.
    pub open spec fn size_spec(self) -> Vector2 {
        Vector2 { x: self.width, y: self.height }
    }

    pub fn new(left: Ratio, top: Ratio, width: Ratio, height: Ratio) -> (r: Rect)
        ensures
            r.left == left,
            r.top == top,
            r.width == width,
            r.height == height,
    {
        Rect { left, top, width, height }
    }

    /// The point at the middle of the rectangle.
    pub fn center(&self) -> (r: Vector2)
        requires
            self.wf(),
            self.center_fits(),
        ensures
            r == self.center_spec(),
            r.wf(),
    {
        Vector2 { x: self.left.half_across(self.width), y: self.top.half_across(self.height) }
    }

    /// The width and the height of the rectangle.
    pub fn size(&self) -> (r: Vector2)
        ensures
            r == self.size_spec(),
    {
        Vector2 { x: self.width, y: self.height }
    }
}

impl PartialEq for Vector2 {
    /// Equal as points, component by component.
    fn eq(&self, o: &Vector2) -> (r: bool)
        ensures
            r == self.same_value(*o),
    {
        self.x == o.x && self.y == o.y
    }
}

impl vstd::std_specs::cmp::PartialEqSpecImpl for Vector2 {
    open spec fn obeys_eq_spec() -> bool {
        true
    }

    open spec fn eq_spec(&self, o: &Vector2) -> bool {
        self.same_value(*o)
    }
}

impl PartialEq for Rect {
    /// Equal as rectangles, field by field.
    fn eq(&self, o: &Rect) -> (r: bool)
        ensures
            r == self.same_value(*o),
    {
        self.left == o.left && self.top == o.top && self.width == o.width && self.height == o.height
    }
}

impl vstd::std_specs::cmp::PartialEqSpecImpl for Rect {
    open spec fn obeys_eq_spec() -> bool {
        true
    }

    open spec fn eq_spec(&self, o: &Rect) -> bool {
        self.same_value(*o)
    }
}

} // verus!
