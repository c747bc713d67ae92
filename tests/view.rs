use view2d::geometry::{Rect, Vector2};
use view2d::ratio::Ratio;
use view2d::view::{View, ViewBox};

fn n(v: i64) -> Ratio {
    Ratio::from_int(v)
}

fn vec2(x: i64, y: i64) -> Vector2 {
    Vector2::new(n(x), n(y))
}

fn rect(l: i64, t: i64, w: i64, h: i64) -> Rect {
    Rect::new(n(l), n(t), n(w), n(h))
}

fn full() -> Rect {
    rect(0, 0, 1, 1)
}

#[test]
fn new_sets_center_and_size_only() {
    let v = View::new(vec2(3, -4), vec2(640, 480));
    assert_eq!(v.center(), vec2(3, -4));
    assert_eq!(v.size(), vec2(640, 480));
    assert_eq!(v.rotation(), n(0));
    assert_eq!(v.viewport(), full());
}

#[test]
fn default_view_is_empty_and_full_target() {
    let v = ViewBox::default();
    assert_eq!(v.center(), vec2(0, 0));
    assert_eq!(v.size(), vec2(0, 0));
    assert_eq!(v.rotation(), n(0));
    assert_eq!(v.viewport(), full());
}

#[test]
fn from_rect_centers_on_the_rectangle() {
    let v = View::from_rect(&rect(10, 20, 100, 50));
    assert_eq!(v.center(), vec2(60, 45));
    assert_eq!(v.size(), vec2(100, 50));
    assert_eq!(v.rotation(), n(0));
    assert_eq!(v.viewport(), full());
}

#[test]
fn from_rect_with_odd_extent_has_half_unit_center() {
    let v = View::from_rect(&rect(0, 0, 3, 5));
    assert_eq!(v.center(), Vector2::new(Ratio::new(3, 2), Ratio::new(5, 2)));
    assert_ne!(v.center(), vec2(1, 2));
}

#[test]
fn set_center_twice_is_set_center_once() {
    let mut once = View::new(vec2(1, 1), vec2(10, 10));
    let mut twice = once.clone();
    once.set_center(vec2(7, 8));
    twice.set_center(vec2(7, 8));
    twice.set_center(vec2(7, 8));
    assert_eq!(once.center(), twice.center());
    assert_eq!(once.size(), twice.size());
    assert_eq!(once.rotation(), twice.rotation());
    assert_eq!(once.viewport(), twice.viewport());
}

#[test]
fn rotations_add_up_without_wrapping() {
    let mut v = View::new(vec2(0, 0), vec2(10, 10));
    v.set_rotation(n(300));
    v.rotate(n(50));
    v.rotate(n(40));
    assert_eq!(v.rotation(), n(390));
    v.rotate(Ratio::new(-1, 2));
    assert_eq!(v.rotation(), Ratio::new(779, 2));
}

#[test]
fn zoom_by_one_keeps_the_size() {
    let mut v = View::new(vec2(0, 0), vec2(30, 20));
    v.zoom(n(1));
    assert_eq!(v.size(), vec2(30, 20));
}

#[test]
fn two_zooms_make_one_by_the_product() {
    let mut a = View::new(vec2(0, 0), vec2(30, 20));
    let mut b = a.clone();
    a.zoom(n(4));
    a.zoom(Ratio::new(1, 2));
    b.zoom(Ratio::new(4, 2));
    assert_eq!(a.size(), b.size());
    assert_eq!(a.size(), vec2(60, 40));
}

#[test]
fn zoom_below_one_shrinks_the_region() {
    let mut v = View::new(vec2(0, 0), vec2(30, 20));
    v.zoom(Ratio::new(1, 10));
    assert_eq!(v.size(), vec2(3, 2));
    assert_eq!(v.center(), vec2(0, 0));
}

#[test]
fn reset_clears_rotation_and_keeps_viewport() {
    let mut v = View::new(vec2(5, 5), vec2(10, 10));
    v.rotate(n(45));
    v.set_viewport(&Rect::new(n(0), n(0), Ratio::new(1, 2), n(1)));
    v.reset(&rect(0, 0, 200, 100));
    assert_eq!(v.rotation(), n(0));
    assert_eq!(v.center(), vec2(100, 50));
    assert_eq!(v.size(), vec2(200, 100));
    assert_eq!(v.viewport(), Rect::new(n(0), n(0), Ratio::new(1, 2), n(1)));
}

#[test]
fn clone_is_independent() {
    let a = View::new(vec2(1, 2), vec2(10, 10));
    let mut b = a.clone();
    b.set_center(vec2(9, 9));
    b.zoom(n(3));
    assert_eq!(a.center(), vec2(1, 2));
    assert_eq!(a.size(), vec2(10, 10));
    assert_eq!(b.center(), vec2(9, 9));
}

#[test]
fn zoom_then_move_example() {
    let mut v = View::new(vec2(0, 0), vec2(100, 100));
    v.zoom(n(2));
    assert_eq!(v.size(), vec2(200, 200));
    v.move_(vec2(10, 10));
    assert_eq!(v.center(), vec2(10, 10));
}

#[test]
fn viewport_is_kept_as_given() {
    let mut v = View::new(vec2(0, 0), vec2(100, 100));
    let vp = Rect::new(Ratio::new(-1, 4), n(0), n(2), Ratio::new(3, 4));
    v.set_viewport(&vp);
    assert_eq!(v.viewport(), vp);
    assert_eq!(v.center(), vec2(0, 0));
    assert_eq!(v.size(), vec2(100, 100));
}

#[test]
fn set_size_and_negative_size_are_kept() {
    let mut v = View::new(vec2(0, 0), vec2(100, 100));
    v.set_size(vec2(-8, 0));
    assert_eq!(v.size(), vec2(-8, 0));
}

#[test]
fn as_view_mut_changes_the_owned_view() {
    let mut b = View::new(vec2(0, 0), vec2(4, 4));
    b.as_view_mut().move_(vec2(-3, 2));
    assert_eq!(b.as_view().center(), vec2(-3, 2));
}

#[test]
fn ratio_arithmetic_is_exact() {
    let third = Ratio::new(1, 3);
    let sixth = Ratio::new(1, 6);
    assert_eq!(third.add(sixth), Ratio::new(1, 2));
    assert_eq!(third.mul(sixth), Ratio::new(1, 18));
    assert_eq!(n(2).half_across(n(5)), Ratio::new(9, 2));
    assert_eq!(Ratio::new(2, 4), Ratio::new(1, 2));
    assert_ne!(Ratio::new(2, 4), Ratio::new(1, 3));
    assert_eq!(Ratio::new(-3, 6), Ratio::new(-1, 2));
}

#[test]
fn vector_and_rect_operations() {
    assert_eq!(vec2(1, 2).add(vec2(3, -5)), vec2(4, -3));
    assert_eq!(vec2(1, 2).scale(Ratio::new(3, 2)), Vector2::new(Ratio::new(3, 2), n(3)));
    assert_eq!(rect(-10, -10, 20, 40).center(), vec2(0, 10));
    assert_eq!(rect(-10, -10, 20, 40).size(), vec2(20, 40));
}

#[test]
fn large_values_compare_without_overflow() {
    let big = Ratio::new(i64::MAX, i64::MAX);
    assert_eq!(big, n(1));
    let a = Ratio::new(i64::MIN, 2);
    assert_eq!(a, Ratio::new(i64::MIN / 2, 1));
}

#[test]
fn transform_of_unrotated_view() {
    let v = View::new(vec2(10, 20), vec2(4, 2));
    let m = v.transform_matrix(n(1), n(0)).unwrap();
    assert_eq!(m.a, Ratio::new(1, 2));
    assert_eq!(m.b, n(0));
    assert_eq!(m.tx, n(-5));
    assert_eq!(m.c, n(0));
    assert_eq!(m.d, n(-1));
    assert_eq!(m.ty, n(20));
}

#[test]
fn transform_of_quarter_turn() {
    let mut v = View::new(vec2(10, 20), vec2(4, 2));
    v.set_rotation(n(90));
    let m = v.transform_matrix(n(0), n(1)).unwrap();
    assert_eq!(m.a, n(0));
    assert_eq!(m.b, Ratio::new(1, 2));
    assert_eq!(m.tx, n(-10));
    assert_eq!(m.c, n(1));
    assert_eq!(m.d, n(0));
    assert_eq!(m.ty, n(-10));
}

#[test]
fn transform_with_negative_width_flips() {
    let v = View::new(vec2(0, 0), vec2(-4, 100));
    let m = v.transform_matrix(n(1), n(0)).unwrap();
    assert_eq!(m.a, Ratio::new(-1, 2));
    assert_eq!(m.d, Ratio::new(-1, 50));
}

#[test]
fn transform_of_zero_size_is_none() {
    let v = ViewBox::default();
    assert!(v.transform_matrix(n(1), n(0)).is_none());
    let w = View::new(vec2(0, 0), vec2(5, 0));
    assert!(w.transform_matrix(n(1), n(0)).is_none());
}

#[test]
fn ratio_neg_and_two_over() {
    assert_eq!(Ratio::new(3, 4).neg(), Ratio::new(-3, 4));
    assert_eq!(Ratio::new(3, 4).two_over(), Ratio::new(8, 3));
    assert_eq!(Ratio::new(-3, 4).two_over(), Ratio::new(-8, 3));
}

#[test]
fn to_owned_copies_into_a_new_handle() {
    let a = View::new(vec2(1, 1), vec2(2, 2));
    let mut b = a.as_view().to_owned();
    b.rotate(n(15));
    assert_eq!(b.rotation(), n(15));
    assert_eq!(a.rotation(), n(0));
    assert_eq!(b.center(), a.center());
}

#[test]
fn transform_that_overflows_is_none() {
    let v = View::new(vec2(0, 0), Vector2::new(Ratio::new(1, i64::MAX), n(1)));
    assert!(v.transform_matrix(n(1), n(0)).is_none());
    let w = View::new(vec2(i64::MAX, 0), vec2(1, 1));
    assert!(w.transform_matrix(n(1), n(0)).is_none());
    let u = View::new(vec2(i64::MAX / 2, 0), vec2(1, 1));
    assert!(u.transform_matrix(n(1), n(0)).is_some());
}

#[test]
fn checked_ratio_operations() {
    assert_eq!(n(i64::MAX).checked_add(n(1)), None);
    assert_eq!(n(3).checked_add(Ratio::new(1, 2)), Some(Ratio::new(7, 2)));
    assert_eq!(n(i64::MAX).checked_mul(n(2)), None);
    assert_eq!(n(-3).checked_mul(Ratio::new(1, 3)), Some(n(-1)));
    assert_eq!(n(i64::MIN).checked_neg(), None);
    assert_eq!(n(0).checked_two_over(), None);
    assert_eq!(Ratio::new(1, 4).checked_two_over(), Some(n(8)));
}
