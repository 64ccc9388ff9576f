use higher_order_point::math::{
    call_first, cbez, id, k, lift_left, lift_right, one, qbez, sub, zero, zip_segment,
};
use higher_order_point::ops::Dot;
use higher_order_point::point::{div_fn, dot_fn, scale, Point};

#[test]
fn line_endpoints_of_integers() {
    assert_eq!(higher_order_point::math::line(&3i64, &11i64, &0i64), 3);
    assert_eq!(higher_order_point::math::line(&3i64, &11i64, &1i64), 11);
    assert_eq!(higher_order_point::math::line(&3i64, &11i64, &2i64), 19);
    assert_eq!(higher_order_point::math::line(&-4i64, &-10i64, &1i64), -10);
}

#[test]
fn line_endpoints_of_points() {
    let a = Point { x: 1i64, y: -2, z: 3 };
    let b = Point { x: 4i64, y: 6, z: -8 };
    assert_eq!(higher_order_point::math::line(&a, &b, &0i64), a);
    assert_eq!(higher_order_point::math::line(&a, &b, &1i64), b);
    assert_eq!(higher_order_point::math::line(&a, &b, &2i64), Point { x: 7, y: 14, z: -19 });
}

#[test]
fn line_of_floats_at_half() {
    let a = Point { x: 1.0, y: 0.0, z: 0.0 };
    let b = Point { x: 2.0, y: 4.0, z: 0.0 };
    assert_eq!(higher_order_point::math::line(&a, &b, &0.5), Point { x: 1.5, y: 2.0, z: 0.0 });
}

#[test]
fn qbez_at_control_points() {
    let a = Point { x: 1.0, y: 0.0, z: 0.0 };
    let b = Point { x: 1.5, y: 0.0, z: 0.0 };
    let c = Point { x: 2.0, y: 0.0, z: 0.0 };
    assert_eq!(qbez(&a, &b, &c, &0.0).x, 1.0);
    assert_eq!(qbez(&a, &b, &c, &0.5).x, 1.5);
    assert_eq!(qbez(&a, &b, &c, &1.0).x, 2.0);
}

#[test]
fn qbez_of_integers() {
    // higher_order_point::math::line(higher_order_point::math::line(0, 2, 2), higher_order_point::math::line(2, 10, 2), 2) = higher_order_point::math::line(4, 18, 2) = 32
    assert_eq!(qbez(&0i64, &2i64, &10i64, &2i64), 32);
}

#[test]
fn cbez_blends_outer_lines() {
    // higher_order_point::math::line(higher_order_point::math::line(0, 1, 2), higher_order_point::math::line(5, 7, 2), 2) = higher_order_point::math::line(2, 9, 2) = 16
    assert_eq!(cbez(&0i64, &1i64, &5i64, &7i64, &2i64), 16);
}

#[test]
fn lifted_functions_ignore_new_slot() {
    let f = |u: i64| u * 3;
    let r = lift_right::<bool, _, _, _>(f);
    assert_eq!(r((5, true)), 15);
    assert_eq!(r((5, false)), 15);
    let l = lift_left::<&str, _, _, _>(f);
    assert_eq!(l(("any", 7)), 21);
    assert_eq!(l(("other", 7)), 21);
}

#[test]
fn identity_and_constant() {
    assert_eq!(id::<i64>()(42), 42);
    assert_eq!(k::<i64, i64>(9)(42), 9);
}

#[test]
fn map_reparametrises() {
    let shifted = higher_order_point::math::map(|u: i64| u * 10, |t: i64| t + 1);
    assert_eq!(shifted(2), 30);
}

#[test]
fn subtraction_of_functions() {
    let d = sub(|t: i64| t * t, |t: i64| t);
    assert_eq!(d(5), 20);
}

#[test]
fn partial_call_strips_first_slot() {
    let f = |(a, b): (i64, i64)| a * 100 + b;
    let g = call_first(f, 7);
    assert_eq!(g(3), 703);
    assert_eq!(g(0), 700);
}

#[test]
fn space_embeds_coordinates() {
    let s = Point::<i64>::space();
    assert_eq!(s([1, 2, 3]), Point { x: 1, y: 2, z: 3 });
}

#[test]
fn zero_and_one_are_constant() {
    let z = zero::<i64, u64>();
    let o = one::<(i64, i64), f64>();
    assert_eq!(z(-5), 0);
    assert_eq!(z(5), 0);
    assert_eq!(o((1, 2)), 1.0);
}

#[test]
fn axes_and_ground_plane() {
    assert_eq!(Point::<i64>::x()(4), Point { x: 4, y: 0, z: 0 });
    assert_eq!(Point::<i64>::y()(-4), Point { x: 0, y: -4, z: 0 });
    assert_eq!(Point::<f64>::z()(2.5), Point { x: 0.0, y: 0.0, z: 2.5 });
    assert_eq!(Point::<i64>::ground_plane()([7, 8]), Point { x: 7, y: 8, z: 0 });
}

#[test]
fn zip_segments_alternate() {
    assert_eq!(zip_segment(0), (false, 0));
    assert_eq!(zip_segment(1), (true, 0));
    assert_eq!(zip_segment(2), (false, 1));
    assert_eq!(zip_segment(3), (true, 1));
    assert_eq!(zip_segment(4), (false, 2));
    assert_eq!(zip_segment(-1), (true, -1));
    assert_eq!(zip_segment(-2), (false, -1));
    assert_eq!(zip_segment(-3), (true, -2));
    assert_eq!(zip_segment(i64::MIN), (false, i64::MIN / 2));
    assert_eq!(zip_segment(i64::MAX), (true, i64::MAX / 2));
}

#[test]
fn point_arithmetic_is_componentwise() {
    let a = Point { x: 1i64, y: 2, z: 3 };
    let b = Point { x: 10i64, y: 20, z: 30 };
    assert_eq!(a + b, Point { x: 11, y: 22, z: 33 });
    assert_eq!(b - a, Point { x: 9, y: 18, z: 27 });
    assert_eq!(a * 3, Point { x: 3, y: 6, z: 9 });
    assert_eq!(b / 10, Point { x: 1, y: 2, z: 3 });
    assert_eq!(a.dot(b), 140);
}

#[test]
fn point_functions_scale_and_divide() {
    let p = |t: i64| Point { x: t, y: 2 * t, z: 3 * t };
    let s = scale(p, |t: i64| t + 1);
    assert_eq!(s(2), Point { x: 6, y: 12, z: 18 });
    let d = div_fn(p, |_: i64| 2);
    assert_eq!(d(4), Point { x: 2, y: 4, z: 6 });
    let n = dot_fn(p, p);
    assert_eq!(n(1), 14);
}

#[test]
fn division_by_zero_follows_floats() {
    let p = |_: f64| Point { x: 1.0, y: -1.0, z: 0.0 };
    let d = div_fn(p, |_: f64| 0.0);
    let v = d(0.0);
    assert_eq!(v.x, f64::INFINITY);
    assert_eq!(v.y, f64::NEG_INFINITY);
    assert!(v.z.is_nan());
}

#[test]
fn scalar_offsets_and_products() {
    let a = Point { x: 1i64, y: 2, z: 3 };
    assert_eq!(a + 1i64, Point { x: 2, y: 3, z: 4 });
    assert_eq!(a - 1i64, Point { x: 0, y: 1, z: 2 });
    assert_eq!(a * a, Point { x: 1, y: 4, z: 9 });
    let p = |t: i64| Point { x: t, y: t + 1, z: t + 2 };
    let q = |t: i64| Point { x: 2, y: t, z: -1 };
    let r = higher_order_point::math::mul(p, q);
    assert_eq!(r(3), Point { x: 6, y: 12, z: -5 });
    let w = higher_order_point::math::mul(|t: i64| t * t, |t: i64| t + 1);
    assert_eq!(w(4), 80);
}
