use vstd::prelude::*;

use crate::geometry::{Rect, Vector2};
use crate::ratio::{fits, product_pair, sum_pair, Ratio};
use crate::view::{one, zero, View};

verus! {

/// Setting the same center twice leaves the view as setting it once.
pub proof fn lemma_set_center_idempotent(v: View, p: Vector2)
    ensures
        v.with_center(p).with_center(p) == v.with_center(p),
{
}

/// Rotating by `a` and then by `b` leaves the rotation at the initial angle
/// plus `a` plus `b`, with no wrap-around, and changes nothing else; as a
/// number that angle is the one reached by a single rotation by `a + b`.
pub proof fn lemma_rotate_twice(v: View, a: Ratio, b: Ratio)
    requires
        v.wf(),
        a.wf(),
        b.wf(),
        fits(sum_pair(v.rotation, a)),
        fits(sum_pair(v.rotation.plus(a), b)),
    ensures
        v.rotated(a).rotated(b) == v.with_rotation(v.rotation.plus(a).plus(b)),
        fits(sum_pair(a, b)) && fits(sum_pair(v.rotation, a.plus(b))) ==> v.rotated(a).rotated(
            b,
        ).rotation.same_value(v.rotated(a.plus(b)).rotation),
{
    if fits(sum_pair(a, b)) && fits(sum_pair(v.rotation, a.plus(b))) {
        let (rn, rd) = (v.rotation.num as int, v.rotation.den as int);
        let (an, ad) = (a.num as int, a.den as int);
        let (bn, bd) = (b.num as int, b.den as int);
        lemma_mul_distr(rn * ad, an * rd, bd);
        lemma_mul_distr(an * bd, bn * ad, rd);
        lemma_mul_assoc(rn, ad, bd);
        lemma_mul_swap(an, rd, bd);
        lemma_mul_assoc(bn, rd, ad);
        lemma_mul_swap(bn, ad, rd);
        lemma_mul_assoc(bn, ad, rd);
        assert(rd * ad == ad * rd) by (nonlinear_arith);
        lemma_mul_assoc(rd, ad, bd);
    }
}

/// Zooming by one leaves the view unchanged.
pub proof fn lemma_zoom_one(v: View)
    requires
        v.wf(),
    ensures
        v.zoomed(one()) == v,
{
}

/// Zooming by `k1` and then by `k2` gives the view that one zoom by the
/// product `k1 * k2` gives.
pub proof fn lemma_zoom_twice(v: View, k1: Ratio, k2: Ratio)
    requires
        v.wf(),
        k1.wf(),
        k2.wf(),
        v.size.scale_fits(k1),
        v.zoomed(k1).size.scale_fits(k2),
        fits(product_pair(k1, k2)),
    ensures
        v.size.scale_fits(k1.times(k2)),
        v.zoomed(k1).zoomed(k2) == v.zoomed(k1.times(k2)),
{
    lemma_mul_assoc(v.size.x.num as int, k1.num as int, k2.num as int);
    lemma_mul_assoc(v.size.x.den as int, k1.den as int, k2.den as int);
    lemma_mul_assoc(v.size.y.num as int, k1.num as int, k2.num as int);
    lemma_mul_assoc(v.size.y.den as int, k1.den as int, k2.den as int);
}

proof fn lemma_mul_assoc(a: int, b: int, c: int)
    ensures
        (a * b) * c == a * (b * c),
{
    assert((a * b) * c == a * (b * c)) by (nonlinear_arith);
}

proof fn lemma_mul_distr(a: int, b: int, c: int)
    ensures
        (a + b) * c == a * c + b * c,
{
    assert((a + b) * c == a * c + b * c) by (nonlinear_arith);
}

proof fn lemma_mul_swap(a: int, b: int, c: int)
    ensures
        (a * b) * c == (a * c) * b,
{
    assert((a * b) * c == (a * c) * b) by (nonlinear_arith);
}

/// The view's transform takes its center to the middle of clip space, the
/// origin, whatever the rotation.
pub proof fn lemma_transform_centers(v: View, cos: Ratio, sin: Ratio)
    requires
        v.wf(),
        cos.wf(),
        sin.wf(),
        v.transform_fits(cos, sin),
    ensures
        v.transform_spec(cos, sin).image_x(v.center).0 == 0,
        v.transform_spec(cos, sin).image_x(v.center).1 > 0,
        v.transform_spec(cos, sin).image_y(v.center).0 == 0,
        v.transform_spec(cos, sin).image_y(v.center).1 > 0,
{
    let m = v.transform_spec(cos, sin);
    let sx = m.a.times(v.center.x).plus(m.b.times(v.center.y));
    let sy = m.c.times(v.center.x).plus(m.d.times(v.center.y));
    assert(sx.num * sx.den + (-sx.num) * sx.den == 0) by (nonlinear_arith);
    assert(sy.num * sy.den + (-sy.num) * sy.den == 0) by (nonlinear_arith);
    assert(sx.den * sx.den > 0) by (nonlinear_arith)
        requires
            sx.den > 0,
    ;
    assert(sy.den * sy.den > 0) by (nonlinear_arith)
        requires
            sy.den > 0,
    ;
}

/// Resetting to a rectangle turns the rotation back to zero, whatever it
/// was, takes center and size from the rectangle, and keeps the viewport.
pub proof fn lemma_reset_keeps_viewport(v: View, rect: Rect)
    ensures
        v.reset_to(rect).rotation == zero(),
        v.reset_to(rect).center == rect.center_spec(),
        v.reset_to(rect).size == rect.size_spec(),
        v.reset_to(rect).viewport == v.viewport,
{
}

} // verus!
