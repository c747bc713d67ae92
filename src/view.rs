use vstd::prelude::*;
use vstd::view::View as _;

use crate::geometry::{Rect, Transform, Vector2};
use crate::ratio::{fits, neg_pair, product_pair, sum_pair, two_over_pair, Ratio};

verus! {

/// The number zero, as `0 / 1`.
pub open spec fn zero() -> Ratio {
    Ratio { num: 0, den: 1 }
}

/// The number one, as `1 / 1`.
pub open spec fn one() -> Ratio {
    Ratio { num: 1, den: 1 }
}

/// The viewport that covers the whole render target: `(0, 0, 1, 1)`.
pub open spec fn full_viewport() -> Rect {
    Rect { left: zero(), top: zero(), width: one(), height: one() }
}

/// A 2D camera: the region of the world that is shown, and where on the
/// render target it is drawn.
///
/// `center` is the world point shown at the middle of the viewport, `size`
/// the width and height of the world region shown, `rotation` an angle in
/// degrees (never wrapped), and `viewport` the part of the target that the
/// view draws into, as fractions of the target's size. None of them is
/// validated: a zero or negative size or a viewport outside `[0, 1]` is kept
/// as given.
#[derive(Clone, Copy, Debug)]
pub struct View {
    pub center: Vector2,
    pub size: Vector2,
    pub rotation: Ratio,
    pub viewport: Rect,
}

impl View {
    /// Every number in the view has a positive denominator.
    pub open spec fn wf(self) -> bool {
        self.center.wf() && self.size.wf() && self.rotation.wf() && self.viewport.wf()
    }

    /// A view of `center` and `size`, unrotated, over the whole target.
    pub open spec fn created(center: Vector2, size: Vector2) -> View {
        View { center, size, rotation: zero(), viewport: full_viewport() }
    }

    /// The view that shows exactly `rect`, unrotated, over the whole target.
    pub open spec fn of_rect(rect: Rect) -> View {
        View::created(rect.center_spec(), rect.size_spec())
    }

    pub open spec fn with_center(self, center: Vector2) -> View {
        View { center, ..self }
    }

    pub open spec fn with_size(self, size: Vector2) -> View {
        View { size, ..self }
    }

    pub open spec fn with_rotation(self, angle: Ratio) -> View {
        View { rotation: angle, ..self }
    }

    pub open spec fn with_viewport(self, viewport: Rect) -> View {
        View { viewport, ..self }
    }

    /// The view turned by `angle` more degrees.
    pub open spec fn rotated(self, angle: Ratio) -> View {
        View { rotation: self.rotation.plus(angle), ..self }
    }

    /// The view with its size multiplied by `factor`.
    pub open spec fn zoomed(self, factor: Ratio) -> View {
        View { size: self.size.scaled(factor), ..self }
    }

    /// The view with its center moved by `offset`.
    pub open spec fn moved(self, offset: Vector2) -> View {
        View { center: self.center.plus(offset), ..self }
    }

    /// The view showing `rect`, unrotated, with its viewport kept.
    pub open spec fn reset_to(self, rect: Rect) -> View {
        View { center: rect.center_spec(), size: rect.size_spec(), rotation: zero(), ..self }
    }

    /// The map from world coordinates to clip space `[-1, 1]^2` that
    /// `transform_matrix` returns: translate by `-center`, rotate by
    /// `-rotation` (given by its cosine `cos` and sine `sin`), then scale by
    /// `(2 / width, -2 / height)`.
    pub open spec fn transform_spec(self, cos: Ratio, sin: Ratio) -> Transform {
        let sx = self.size.x.two_over_spec();
        let sy = self.size.y.two_over_spec();
        let a = sx.times(cos);
        let b = sx.times(sin);
        let c = sy.times(sin);
        let d = sy.times(cos).negated();
        let tx = a.times(self.center.x).plus(b.times(self.center.y)).negated();
        let ty = c.times(self.center.x).plus(d.times(self.center.y)).negated();
        Transform { a, b, tx, c, d, ty }
    }

    /// Whether every number met while building `transform_spec` fits in a
    /// `Ratio`; this requires both size components to be non-zero.
    pub open spec fn transform_fits(self, cos: Ratio, sin: Ratio) -> bool {
        let sx = self.size.x.two_over_spec();
        let sy = self.size.y.two_over_spec();
        let a = sx.times(cos);
        let b = sx.times(sin);
        let c = sy.times(sin);
        let d = sy.times(cos).negated();
        &&& fits(two_over_pair(self.size.x))
        &&& fits(two_over_pair(self.size.y))
        &&& fits(product_pair(sx, cos))
        &&& fits(product_pair(sx, sin))
        &&& fits(product_pair(sy, sin))
        &&& fits(product_pair(sy, cos))
        &&& fits(neg_pair(sy.times(cos)))
        &&& fits(product_pair(a, self.center.x))
        &&& fits(product_pair(b, self.center.y))
        &&& fits(sum_pair(a.times(self.center.x), b.times(self.center.y)))
        &&& fits(neg_pair(a.times(self.center.x).plus(b.times(self.center.y))))
        &&& fits(product_pair(c, self.center.x))
        &&& fits(product_pair(d, self.center.y))
        &&& fits(sum_pair(c.times(self.center.x), d.times(self.center.y)))
        &&& fits(neg_pair(c.times(self.center.x).plus(d.times(self.center.y))))
    }

    /// The current orientation, in degrees.
    pub fn rotation(&self) -> (r: Ratio)
        ensures
            r == self.rotation,
    {
        self.rotation
    }

    /// The world point at the middle of the view.
    pub fn center(&self) -> (r: Vector2)
        ensures
            r == self.center,
    {
        self.center
    }

    /// The width and height of the world region shown.
    pub fn size(&self) -> (r: Vector2)
        ensures
            r == self.size,
    {
        self.size
    }

    /// The target viewport, as fractions of the target's size.
    pub fn viewport(&self) -> (r: Rect)
        ensures
            r == self.viewport,
    {
        self.viewport
    }

    /// A view with the given center and size, no rotation, and the full
    /// viewport.
    pub fn new(center: Vector2, size: Vector2) -> (r: ViewBox)
        requires
            center.wf(),
            size.wf(),
        ensures
            r@ == View::created(center, size),
            r@.center == center,
            r@.size == size,
            r@.rotation == zero(),
            r@.viewport == full_viewport(),
            r@.wf(),
    {
        let mut view = ViewBox::default();
        view.as_view_mut().set_center(center);
        view.as_view_mut().set_size(size);
        view
    }

    /// A view that shows exactly `rectangle`: centered on its middle, as
    /// large as it is, unrotated, over the full viewport.
    pub fn from_rect(rectangle: &Rect) -> (r: ViewBox)
        requires
            rectangle.wf(),
            rectangle.center_fits(),
        ensures
            r@ == View::of_rect(*rectangle),
            r@.center == rectangle.center_spec(),
            r@.size == rectangle.size_spec(),
            r@.rotation == zero(),
            r@.viewport == full_viewport(),
            r@.wf(),
    {
        let center = rectangle.center();
        let size = rectangle.size();
        ViewBox { view: View { center, size, rotation: Ratio::from_int(0), viewport: full() } }
    }

    /// The transform from world coordinates to clip space `[-1, 1]^2`:
    /// translate by `-center`, rotate by `-rotation`, then scale by
    /// `(2 / width, -2 / height)`, which flips the vertical axis.
    ///
    /// `cos` and `sin` are the cosine and sine of `rotation`, which exact
    /// fractions cannot compute; the viewport is not folded in. `None` when
    /// the size has a zero component, where no such map exists, and when a
    /// number on the way does not fit in a `Ratio`.
    pub fn transform_matrix(&self, cos: Ratio, sin: Ratio) -> (r: Option<Transform>)
        requires
            self.wf(),
            cos.wf(),
            sin.wf(),
        ensures
            r is Some <==> self.transform_fits(cos, sin),
            self.size.x.num == 0 || self.size.y.num == 0 ==> r is None,
            r matches Some(m) ==> m == self.transform_spec(cos, sin),
    {
        let sx = match self.size.x.checked_two_over() {
            Some(v) => v,
            None => return None,
        };
        let sy = match self.size.y.checked_two_over() {
            Some(v) => v,
            None => return None,
        };
        let a = match sx.checked_mul(cos) {
            Some(v) => v,
            None => return None,
        };
        let b = match sx.checked_mul(sin) {
            Some(v) => v,
            None => return None,
        };
        let c = match sy.checked_mul(sin) {
            Some(v) => v,
            None => return None,
        };
        let d = match sy.checked_mul(cos) {
            Some(v) => match v.checked_neg() {
                Some(w) => w,
                None => return None,
            },
            None => return None,
        };
        let tx = match Self::neg_dot(a, b, self.center) {
            Some(v) => v,
            None => return None,
        };
        let ty = match Self::neg_dot(c, d, self.center) {
            Some(v) => v,
            None => return None,
        };
        Some(Transform { a, b, tx, c, d, ty })
    }

    /// `-(p * q.x + r * q.y)`, or `None` where a number on the way does not
    /// fit.
    fn neg_dot(p: Ratio, r: Ratio, q: Vector2) -> (res: Option<Ratio>)
        requires
            p.wf(),
            r.wf(),
            q.wf(),
        ensures
            res is Some <==> {
                &&& fits(product_pair(p, q.x))
                &&& fits(product_pair(r, q.y))
                &&& fits(sum_pair(p.times(q.x), r.times(q.y)))
                &&& fits(neg_pair(p.times(q.x).plus(r.times(q.y))))
            },
            res matches Some(v) ==> v == p.times(q.x).plus(r.times(q.y)).negated(),
    {
        let px = match p.checked_mul(q.x) {
            Some(v) => v,
            None => return None,
        };
        let ry = match r.checked_mul(q.y) {
            Some(v) => v,
            None => return None,
        };
        match px.checked_add(ry) {
            Some(v) => v.checked_neg(),
            None => None,
        }
    }

    /// A new owning handle to a copy of this view.
    pub fn to_owned(&self) -> (r: ViewBox)
        ensures
            r@ == *self,
    {
        ViewBox { view: *self }
    }

    /// Sets the orientation, in degrees; no wrap-around is applied.
    pub fn set_rotation(&mut self, angle: Ratio)
        ensures
            *final(self) == old(self).with_rotation(angle),
    {
        self.rotation = angle;
    }

    /// Turns the view by `angle` degrees relative to its orientation.
    pub fn rotate(&mut self, angle: Ratio)
        requires
            old(self).wf(),
            angle.wf(),
            fits(sum_pair(old(self).rotation, angle)),
        ensures
            *final(self) == old(self).rotated(angle),
            final(self).wf(),
    {
        self.rotation = self.rotation.add(angle);
    }

    /// Multiplies the size by `factor`: above one the region shown grows,
    /// below one it shrinks.
    pub fn zoom(&mut self, factor: Ratio)
        requires
            old(self).wf(),
            factor.wf(),
            old(self).size.scale_fits(factor),
        ensures
            *final(self) == old(self).zoomed(factor),
            final(self).wf(),
    {
        self.size = self.size.scale(factor);
    }

    pub fn set_center(&mut self, center: Vector2)
        ensures
            *final(self) == old(self).with_center(center),
    {
        self.center = center;
    }

    pub fn set_size(&mut self, size: Vector2)
        ensures
            *final(self) == old(self).with_size(size),
    {
        self.size = size;
    }

    /// Moves the center by `offset`.
    pub fn move_(&mut self, offset: Vector2)
        requires
            old(self).wf(),
            offset.wf(),
            old(self).center.sum_fits(offset),
        ensures
            *final(self) == old(self).moved(offset),
            final(self).wf(),
    {
        self.center = self.center.add(offset);
    }

    /// Sets the viewport; fractions outside `[0, 1]` are kept as given.
    pub fn set_viewport(&mut self, viewport: &Rect)
        ensures
            *final(self) == old(self).with_viewport(*viewport),
    {
        self.viewport = *viewport;
    }

    /// Shows exactly `rectangle`, and turns the rotation back to zero; the
    /// viewport is kept.
    pub fn reset(&mut self, rectangle: &Rect)
        requires
            old(self).wf(),
            rectangle.wf(),
            rectangle.center_fits(),
        ensures
            *final(self) == old(self).reset_to(*rectangle),
            final(self).wf(),
    {
        self.center = rectangle.center();
        self.size = rectangle.size();
        self.rotation = Ratio::from_int(0);
    }
}

/// The viewport that covers the whole render target.
fn full() -> (r: Rect)
    ensures
        r == full_viewport(),
{
    Rect::new(Ratio::from_int(0), Ratio::from_int(0), Ratio::from_int(1), Ratio::from_int(1))
}

/// An owning handle to a `View`.
///
/// `clone` gives a second, independent view with the same fields.
pub struct ViewBox {
    view: View,
}

impl vstd::view::View for ViewBox {
    type V = View;

    closed spec fn view(&self) -> View {
        self.view
    }
}

impl ViewBox {
    /// The view that this handle owns.
    pub fn as_view(&self) -> (r: &View)
        ensures
            *r == self@,
    {
        &self.view
    }

    /// The view that this handle owns, for changing it in place.
    pub fn as_view_mut(&mut self) -> (r: &mut View)
        ensures
            *r == old(self)@,
            final(self)@ == *final(r),
    {
        &mut self.view
    }
}

impl Default for ViewBox {
    /// Center and size `(0, 0)`, no rotation, the full viewport.
    fn default() -> (r: ViewBox)
        ensures
            r@ == View::created(
                Vector2 { x: zero(), y: zero() },
                Vector2 { x: zero(), y: zero() },
            ),
    {
        let origin = Vector2::new(Ratio::from_int(0), Ratio::from_int(0));
        ViewBox { view: View { center: origin, size: origin, rotation: Ratio::from_int(0), viewport: full() } }
    }
}

impl Clone for ViewBox {
    fn clone(&self) -> (r: ViewBox)
        ensures
            r@ == self@,
    {
        self.view.to_owned()
    }
}

impl core::borrow::Borrow<View> for ViewBox {
    fn borrow(&self) -> &View {
        &self.view
    }
}

impl core::ops::Deref for ViewBox {
    type Target = View;

    fn deref(&self) -> &View {
        &self.view
    }
}

impl core::ops::DerefMut for ViewBox {
    fn deref_mut(&mut self) -> &mut View {
        &mut self.view
    }
}

} // verus!
