//! Points in three dimensions, and functions from a parameter to points.

use vstd::prelude::*;
use vstd::std_specs::ops::{AddSpec, DivSpec, MulSpec, SubSpec};
use std::ops::{Add, Div, Mul, Sub};
use crate::ops::{Cross, Dot};

verus! {

/// 3D point.
#[derive(Clone, Copy, Debug, PartialEq)]
pub struct Point<S> {
    /// The x-coordinate.
    pub x: S,
    /// The y-coordinate.
    pub y: S,
    /// The z-coordinate.
    pub z: S,
}

/// Whether `v` is the zero of `S`: a value that `S::default()` returns,
/// which is `0` for the integer types.
pub open spec fn is_zero<S: Default>(v: S) -> bool {
    call_ensures(S::default, (), v)
}

impl<S: Copy> Point<S> {
    /// Returns plain Euclidean space: the point whose coordinates are the
    /// three parameters.
    pub fn space() -> (r: impl Fn([S; 3]) -> Point<S>)
        ensures
            forall|a: [S; 3]| #[trigger] r.requires((a,)),
            forall|a: [S; 3], p: Point<S>|
                #[trigger] r.ensures((a,), p) ==> p == (Point { x: a@[0], y: a@[1], z: a@[2] }),
    {
        |a: [S; 3]| -> (p: Point<S>)
            ensures
                p == (Point { x: a@[0], y: a@[1], z: a@[2] }),
            { Point { x: a[0], y: a[1], z: a[2] } }
    }
}

impl<S: Default + Copy> Point<S> {
    /// Returns the ground plane: the point with the two parameters as x and y
    /// and a zero z-value.
    pub fn ground_plane() -> (r: impl Fn([S; 2]) -> Point<S>)
        ensures
            forall|a: [S; 2]| #[trigger] r.requires((a,)),
            forall|a: [S; 2], p: Point<S>|
                #[trigger] r.ensures((a,), p) ==> p.x == a@[0] && p.y == a@[1] && is_zero(p.z),
    {
        let o = S::default();
        move |a: [S; 2]| -> (p: Point<S>)
            ensures
                p.x == a@[0] && p.y == a@[1] && is_zero(p.z),
            { Point { x: a[0], y: a[1], z: o } }
    }

    /// Points along the x-axis: the point with the parameter as x and zero
    /// y and z.
    pub fn x() -> (r: impl Fn(S) -> Point<S>)
        ensures
            forall|v: S| #[trigger] r.requires((v,)),
            forall|v: S, p: Point<S>|
                #[trigger] r.ensures((v,), p) ==> p.x == v && p.y == p.z && is_zero(p.y),
    {
        let o = S::default();
        move |v: S| -> (p: Point<S>)
            ensures
                p.x == v && p.y == p.z && is_zero(p.y),
            { Point { x: v, y: o, z: o } }
    }

    /// Points along the y-axis: the point with the parameter as y and zero
    /// x and z.
    pub fn y() -> (r: impl Fn(S) -> Point<S>)
        ensures
            forall|v: S| #[trigger] r.requires((v,)),
            forall|v: S, p: Point<S>|
                #[trigger] r.ensures((v,), p) ==> p.y == v && p.x == p.z && is_zero(p.x),
    {
        let o = S::default();
        move |v: S| -> (p: Point<S>)
            ensures
                p.y == v && p.x == p.z && is_zero(p.x),
            { Point { x: o, y: v, z: o } }
    }

    /// Points along the z-axis: the point with the parameter as z and zero
    /// x and y.
    pub fn z() -> (r: impl Fn(S) -> Point<S>)
        ensures
            forall|v: S| #[trigger] r.requires((v,)),
            forall|v: S, p: Point<S>|
                #[trigger] r.ensures((v,), p) ==> p.z == v && p.x == p.y && is_zero(p.x),
    {
        let o = S::default();
        move |v: S| -> (p: Point<S>)
            ensures
                p.z == v && p.x == p.y && is_zero(p.x),
            { Point { x: o, y: o, z: v } }
    }
}

impl<S: Copy> From<[S; 3]> for Point<S> {
    fn from(a: [S; 3]) -> (r: Self) {
        Point { x: a[0], y: a[1], z: a[2] }
    }
}

impl<S: Copy> vstd::std_specs::convert::FromSpecImpl<[S; 3]> for Point<S> {
    open spec fn obeys_from_spec() -> bool {
        true
    }

    open spec fn from_spec(a: [S; 3]) -> Self {
        Point { x: a@[0], y: a@[1], z: a@[2] }
    }
}

impl<S> From<Point<S>> for [S; 3] {
    fn from(p: Point<S>) -> (r: Self) {
        [p.x, p.y, p.z]
    }
}

impl<S> vstd::std_specs::convert::FromSpecImpl<Point<S>> for [S; 3] {
    open spec fn obeys_from_spec() -> bool {
        true
    }

    open spec fn from_spec(p: Point<S>) -> Self {
        [p.x, p.y, p.z]
    }
}

impl<S: Add<S, Output = S>> Add for Point<S> {
    type Output = Self;

    fn add(self, other: Self) -> (r: Self) {
        Point { x: self.x + other.x, y: self.y + other.y, z: self.z + other.z }
    }
}

impl<S: Add<S, Output = S>> vstd::std_specs::ops::AddSpecImpl for Point<S> {
    open spec fn obeys_add_spec() -> bool {
        S::obeys_add_spec()
    }

    open spec fn add_req(self, other: Self) -> bool {
        self.x.add_req(other.x) && self.y.add_req(other.y) && self.z.add_req(other.z)
    }

    open spec fn add_spec(self, other: Self) -> Self {
        Point {
            x: self.x.add_spec(other.x),
            y: self.y.add_spec(other.y),
            z: self.z.add_spec(other.z),
        }
    }
}

impl<S: Sub<S, Output = S>> Sub for Point<S> {
    type Output = Self;

    fn sub(self, other: Self) -> (r: Self) {
        Point { x: self.x - other.x, y: self.y - other.y, z: self.z - other.z }
    }
}

impl<S: Sub<S, Output = S>> vstd::std_specs::ops::SubSpecImpl for Point<S> {
    open spec fn obeys_sub_spec() -> bool {
        S::obeys_sub_spec()
    }

    open spec fn sub_req(self, other: Self) -> bool {
        self.x.sub_req(other.x) && self.y.sub_req(other.y) && self.z.sub_req(other.z)
    }

    open spec fn sub_spec(self, other: Self) -> Self {
        Point {
            x: self.x.sub_spec(other.x),
            y: self.y.sub_spec(other.y),
            z: self.z.sub_spec(other.z),
        }
    }
}

impl<S: Add<S, Output = S> + Copy> Add<S> for Point<S> {
    type Output = Self;

    fn add(self, v: S) -> (r: Self) {
        Point { x: self.x + v, y: self.y + v, z: self.z + v }
    }
}

impl<S: Add<S, Output = S> + Copy> vstd::std_specs::ops::AddSpecImpl<S> for Point<S> {
    open spec fn obeys_add_spec() -> bool {
        S::obeys_add_spec()
    }

    open spec fn add_req(self, v: S) -> bool {
        self.x.add_req(v) && self.y.add_req(v) && self.z.add_req(v)
    }

    open spec fn add_spec(self, v: S) -> Self {
        Point { x: self.x.add_spec(v), y: self.y.add_spec(v), z: self.z.add_spec(v) }
    }
}

impl<S: Sub<S, Output = S> + Copy> Sub<S> for Point<S> {
    type Output = Self;

    fn sub(self, v: S) -> (r: Self) {
        Point { x: self.x - v, y: self.y - v, z: self.z - v }
    }
}

impl<S: Sub<S, Output = S> + Copy> vstd::std_specs::ops::SubSpecImpl<S> for Point<S> {
    open spec fn obeys_sub_spec() -> bool {
        S::obeys_sub_spec()
    }

    open spec fn sub_req(self, v: S) -> bool {
        self.x.sub_req(v) && self.y.sub_req(v) && self.z.sub_req(v)
    }

    open spec fn sub_spec(self, v: S) -> Self {
        Point { x: self.x.sub_spec(v), y: self.y.sub_spec(v), z: self.z.sub_spec(v) }
    }
}

impl<S: Mul<S, Output = S>> Mul for Point<S> {
    type Output = Self;

    fn mul(self, other: Self) -> (r: Self) {
        Point { x: self.x * other.x, y: self.y * other.y, z: self.z * other.z }
    }
}

impl<S: Mul<S, Output = S>> vstd::std_specs::ops::MulSpecImpl for Point<S> {
    open spec fn obeys_mul_spec() -> bool {
        S::obeys_mul_spec()
    }

    open spec fn mul_req(self, other: Self) -> bool {
        self.x.mul_req(other.x) && self.y.mul_req(other.y) && self.z.mul_req(other.z)
    }

    open spec fn mul_spec(self, other: Self) -> Self {
        Point {
            x: self.x.mul_spec(other.x),
            y: self.y.mul_spec(other.y),
            z: self.z.mul_spec(other.z),
        }
    }
}

impl<S: Mul<S, Output = S> + Copy> Mul<S> for Point<S> {
    type Output = Self;

    fn mul(self, other: S) -> (r: Self) {
        Point { x: self.x * other, y: self.y * other, z: self.z * other }
    }
}

impl<S: Mul<S, Output = S> + Copy> vstd::std_specs::ops::MulSpecImpl<S> for Point<S> {
    open spec fn obeys_mul_spec() -> bool {
        S::obeys_mul_spec()
    }

    open spec fn mul_req(self, other: S) -> bool {
        self.x.mul_req(other) && self.y.mul_req(other) && self.z.mul_req(other)
    }

    open spec fn mul_spec(self, other: S) -> Self {
        Point { x: self.x.mul_spec(other), y: self.y.mul_spec(other), z: self.z.mul_spec(other) }
    }
}

impl<S: Div<S, Output = S> + Copy> Div<S> for Point<S> {
    type Output = Self;

    fn div(self, other: S) -> (r: Self) {
        Point { x: self.x / other, y: self.y / other, z: self.z / other }
    }
}

impl<S: Div<S, Output = S> + Copy> vstd::std_specs::ops::DivSpecImpl<S> for Point<S> {
    open spec fn obeys_div_spec() -> bool {
        S::obeys_div_spec()
    }

    open spec fn div_req(self, other: S) -> bool {
        self.x.div_req(other) && self.y.div_req(other) && self.z.div_req(other)
    }

    open spec fn div_spec(self, other: S) -> Self {
        Point { x: self.x.div_spec(other), y: self.y.div_spec(other), z: self.z.div_spec(other) }
    }
}

/// The dot product of `a` and `b`: the sum of the products of their
/// coordinates.
pub open spec fn dot_spec<S>(a: Point<S>, b: Point<S>) -> S where
    S: Add<S, Output = S> + Mul<S, Output = S>,
 {
    a.x.mul_spec(b.x).add_spec(a.y.mul_spec(b.y)).add_spec(a.z.mul_spec(b.z))
}

/// Whether `a.x * b.x + a.y * b.y + a.z * b.z` can be computed: the
/// products can, and the sums can for any values that the products and the
/// first sum may return (any value at all where an operation is not known to
/// follow its specification).
pub open spec fn dot_req_spec<S>(a: Point<S>, b: Point<S>) -> bool where
    S: Add<S, Output = S> + Mul<S, Output = S>,
 {
    &&& a.x.mul_req(b.x)
    &&& a.y.mul_req(b.y)
    &&& a.z.mul_req(b.z)
    &&& forall|p: S, q: S|
        #![trigger p.add_req(q)]
        (S::obeys_mul_spec() ==> p == a.x.mul_spec(b.x) && q == a.y.mul_spec(b.y)) ==> p.add_req(
            q,
        )
    &&& forall|s: S, w: S|
        #![trigger s.add_req(w)]
        (S::obeys_add_spec() && S::obeys_mul_spec() ==> s == a.x.mul_spec(b.x).add_spec(
            a.y.mul_spec(b.y),
        )) && (S::obeys_mul_spec() ==> w == a.z.mul_spec(b.z)) ==> s.add_req(w)
}

impl<S: Add<S, Output = S> + Mul<S, Output = S> + Copy> Dot for Point<S> {
    type Output = S;

    open spec fn dot_req(self, other: Self) -> bool {
        dot_req_spec(self, other)
    }

    fn dot(self, other: Self) -> (r: S)
        ensures
            S::obeys_add_spec() && S::obeys_mul_spec() ==> r == dot_spec(self, other),
    {
        let xx = self.x * other.x;
        let yy = self.y * other.y;
        let zz = self.z * other.z;
        let s = xx + yy;
        s + zz
    }
}

/// The cross product of `a` and `b`.
pub open spec fn cross_spec<S>(a: Point<S>, b: Point<S>) -> Point<S> where
    S: Sub<S, Output = S> + Mul<S, Output = S>,
 {
    Point {
        x: a.y.mul_spec(b.z).sub_spec(a.z.mul_spec(b.y)),
        y: a.z.mul_spec(b.x).sub_spec(a.x.mul_spec(b.z)),
        z: a.x.mul_spec(b.y).sub_spec(a.y.mul_spec(b.x)),
    }
}

/// Whether `p * q - r * s` can be computed: the products can, and the
/// difference can for any values that the products may return.
pub open spec fn mul_sub_req<S>(p: S, q: S, r: S, s: S) -> bool where
    S: Sub<S, Output = S> + Mul<S, Output = S>,
 {
    &&& p.mul_req(q)
    &&& r.mul_req(s)
    &&& forall|u: S, v: S|
        #![trigger u.sub_req(v)]
        (S::obeys_mul_spec() ==> u == p.mul_spec(q) && v == r.mul_spec(s)) ==> u.sub_req(v)
}

impl<S: Sub<S, Output = S> + Mul<S, Output = S> + Copy> Cross for Point<S> {
    type Output = Self;

    open spec fn cross_req(self, other: Self) -> bool {
        let (a, b) = (self, other);
        &&& mul_sub_req(a.y, b.z, a.z, b.y)
        &&& mul_sub_req(a.z, b.x, a.x, b.z)
        &&& mul_sub_req(a.x, b.y, a.y, b.x)
    }

    fn cross(self, other: Self) -> (r: Self)
        ensures
            S::obeys_sub_spec() && S::obeys_mul_spec() ==> r == cross_spec(self, other),
    {
        let a = self;
        let b = other;
        Point {
            x: a.y * b.z - a.z * b.y,
            y: a.z * b.x - a.x * b.z,
            z: a.x * b.y - a.y * b.x,
        }
    }
}

/// Builds a point function from three functions of the same parameter, one
/// for each coordinate.
pub fn from_fns<T: Copy, S, X, Y, Z>(fx: X, fy: Y, fz: Z) -> (r: impl Fn(T) -> Point<S>) where
    X: Fn(T) -> S,
    Y: Fn(T) -> S,
    Z: Fn(T) -> S,
    ensures
        forall|t: T|
            fx.requires((t,)) && fy.requires((t,)) && fz.requires((t,)) ==> #[trigger] r.requires(
                (t,),
            ),
        forall|t: T, p: Point<S>|
            #[trigger] r.ensures((t,), p) ==> fx.ensures((t,), p.x) && fy.ensures((t,), p.y)
                && fz.ensures((t,), p.z),
{
    move |t: T| -> (p: Point<S>)
        requires
            fx.requires((t,)),
            fy.requires((t,)),
            fz.requires((t,)),
        ensures
            fx.ensures((t,), p.x),
            fy.ensures((t,), p.y),
            fz.ensures((t,), p.z),
        { Point { x: fx(t), y: fy(t), z: fz(t) } }
}

/// Multiplies a point function by a scalar function of the same parameter.
pub fn scale<T: Copy, S: Mul<S, Output = S> + Copy, P, F>(p: P, f: F) -> (r: impl Fn(T) -> Point<S>) where
    P: Fn(T) -> Point<S>,
    F: Fn(T) -> S,
    ensures
        forall|t: T|
            p.requires((t,)) && f.requires((t,)) && (forall|a: Point<S>, s: S|
                p.ensures((t,), a) && f.ensures((t,), s) ==> a.mul_req(s))
                ==> #[trigger] r.requires((t,)),
        forall|t: T, v: Point<S>|
            #[trigger] r.ensures((t,), v) ==> exists|a: Point<S>, s: S|
                #![trigger p.ensures((t,), a), f.ensures((t,), s)]
                p.ensures((t,), a) && f.ensures((t,), s) && (S::obeys_mul_spec() ==> v
                    == a.mul_spec(s)),
{
    move |t: T| -> (v: Point<S>)
        requires
            p.requires((t,)),
            f.requires((t,)),
            forall|a: Point<S>, s: S| p.ensures((t,), a) && f.ensures((t,), s) ==> a.mul_req(s),
        ensures
            exists|a: Point<S>, s: S|
                #![trigger p.ensures((t,), a), f.ensures((t,), s)]
                p.ensures((t,), a) && f.ensures((t,), s) && (S::obeys_mul_spec() ==> v
                    == a.mul_spec(s)),
        {
            let a = p(t);
            let s = f(t);
            let v = a * s;
            assert(p.ensures((t,), a) && f.ensures((t,), s) && (S::obeys_mul_spec() ==> v
                == a.mul_spec(s)));
            v
        }
}

/// Divides a point function by a scalar function of the same parameter.
pub fn div_fn<T: Copy, S: Div<S, Output = S> + Copy, P, F>(p: P, f: F) -> (r: impl Fn(T) -> Point<S>) where
    P: Fn(T) -> Point<S>,
    F: Fn(T) -> S,
    ensures
        forall|t: T|
            p.requires((t,)) && f.requires((t,)) && (forall|a: Point<S>, s: S|
                p.ensures((t,), a) && f.ensures((t,), s) ==> a.div_req(s))
                ==> #[trigger] r.requires((t,)),
        forall|t: T, v: Point<S>|
            #[trigger] r.ensures((t,), v) ==> exists|a: Point<S>, s: S|
                #![trigger p.ensures((t,), a), f.ensures((t,), s)]
                p.ensures((t,), a) && f.ensures((t,), s) && (S::obeys_div_spec() ==> v
                    == a.div_spec(s)),
{
    move |t: T| -> (v: Point<S>)
        requires
            p.requires((t,)),
            f.requires((t,)),
            forall|a: Point<S>, s: S| p.ensures((t,), a) && f.ensures((t,), s) ==> a.div_req(s),
        ensures
            exists|a: Point<S>, s: S|
                #![trigger p.ensures((t,), a), f.ensures((t,), s)]
                p.ensures((t,), a) && f.ensures((t,), s) && (S::obeys_div_spec() ==> v
                    == a.div_spec(s)),
        {
            let a = p(t);
            let s = f(t);
            let v = a / s;
            assert(p.ensures((t,), a) && f.ensures((t,), s) && (S::obeys_div_spec() ==> v
                == a.div_spec(s)));
            v
        }
}

/// Returns the dot product of two point functions: a scalar function.
pub fn dot_fn<T: Copy, S, P, Q>(p: P, q: Q) -> (r: impl Fn(T) -> S) where
    S: Add<S, Output = S> + Mul<S, Output = S> + Copy,
    P: Fn(T) -> Point<S>,
    Q: Fn(T) -> Point<S>,
    ensures
        forall|t: T|
            p.requires((t,)) && q.requires((t,)) && (forall|a: Point<S>, b: Point<S>|
                p.ensures((t,), a) && q.ensures((t,), b) ==> a.dot_req(b))
                ==> #[trigger] r.requires((t,)),
        forall|t: T, v: S|
            #[trigger] r.ensures((t,), v) ==> exists|a: Point<S>, b: Point<S>|
                #![trigger p.ensures((t,), a), q.ensures((t,), b)]
                p.ensures((t,), a) && q.ensures((t,), b) && (S::obeys_add_spec() && S::obeys_mul_spec()
                    ==> v == dot_spec(a, b)),
{
    move |t: T| -> (v: S)
        requires
            p.requires((t,)),
            q.requires((t,)),
            forall|a: Point<S>, b: Point<S>| p.ensures((t,), a) && q.ensures((t,), b) ==> a.dot_req(b),
        ensures
            exists|a: Point<S>, b: Point<S>|
                #![trigger p.ensures((t,), a), q.ensures((t,), b)]
                p.ensures((t,), a) && q.ensures((t,), b) && (S::obeys_add_spec() && S::obeys_mul_spec()
                    ==> v == dot_spec(a, b)),
        {
            let a = p(t);
            let b = q(t);
            let v = a.dot(b);
            assert(p.ensures((t,), a) && q.ensures((t,), b) && (S::obeys_add_spec() && S::obeys_mul_spec()
                    ==> v == dot_spec(a, b)));
            v
        }
}

/// Returns the cross product of two point functions.
pub fn cross_fn<T: Copy, S, P, Q>(p: P, q: Q) -> (r: impl Fn(T) -> Point<S>) where
    S: Sub<S, Output = S> + Mul<S, Output = S> + Copy,
    P: Fn(T) -> Point<S>,
    Q: Fn(T) -> Point<S>,
    ensures
        forall|t: T|
            p.requires((t,)) && q.requires((t,)) && (forall|a: Point<S>, b: Point<S>|
                p.ensures((t,), a) && q.ensures((t,), b) ==> a.cross_req(b))
                ==> #[trigger] r.requires((t,)),
        forall|t: T, v: Point<S>|
            #[trigger] r.ensures((t,), v) ==> exists|a: Point<S>, b: Point<S>|
                #![trigger p.ensures((t,), a), q.ensures((t,), b)]
                p.ensures((t,), a) && q.ensures((t,), b) && (S::obeys_sub_spec() && S::obeys_mul_spec()
                    ==> v == cross_spec(a, b)),
{
    move |t: T| -> (v: Point<S>)
        requires
            p.requires((t,)),
            q.requires((t,)),
            forall|a: Point<S>, b: Point<S>| p.ensures((t,), a) && q.ensures((t,), b) ==> a.cross_req(b),
        ensures
            exists|a: Point<S>, b: Point<S>|
                #![trigger p.ensures((t,), a), q.ensures((t,), b)]
                p.ensures((t,), a) && q.ensures((t,), b) && (S::obeys_sub_spec() && S::obeys_mul_spec()
                    ==> v == cross_spec(a, b)),
        {
            let a = p(t);
            let b = q(t);
            let v = a.cross(b);
            assert(p.ensures((t,), a) && q.ensures((t,), b) && (S::obeys_sub_spec() && S::obeys_mul_spec()
                    ==> v == cross_spec(a, b)));
            v
        }
}

} // verus!
