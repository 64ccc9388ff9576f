//! Combinators on functions of a parameter.

use vstd::prelude::*;
use vstd::std_specs::convert::FromSpec;
use vstd::std_specs::ops::{AddSpec, MulSpec, SubSpec};
use std::ops::{Add, Mul, Sub};
use crate::point::is_zero;

verus! {

/// Returns the identity function.
pub fn id<T>() -> (r: impl Fn(T) -> T)
    ensures
        forall|a: T| #[trigger] r.requires((a,)),
        forall|a: T, b: T| #[trigger] r.ensures((a,), b) ==> b == a,
{
    |a: T| -> (b: T)
        ensures
            b == a,
        { a }
}

/// Returns a constant function: it ignores its parameter and returns `v`.
pub fn k<T, V: Copy>(v: V) -> (r: impl Fn(T) -> V)
    ensures
        forall|a: T| #[trigger] r.requires((a,)),
        forall|a: T, b: V| #[trigger] r.ensures((a,), b) ==> b == v,
{
    move |a: T| -> (b: V)
        ensures
            b == v,
        { v }
}

/// Returns the zero function: it ignores its parameter and returns
/// `S::default()` (`0` for the integer types), the same value at every
/// parameter.
pub fn zero<T, S: Default + Copy>() -> (r: impl Fn(T) -> S)
    ensures
        forall|a: T| #[trigger] r.requires((a,)),
        forall|a: T, b: S| #[trigger] r.ensures((a,), b) ==> is_zero(b),
        forall|a1: T, a2: T, b1: S, b2: S|
            #[trigger] r.ensures((a1,), b1) && #[trigger] r.ensures((a2,), b2) ==> b1 == b2,
{
    k(S::default())
}

/// Returns the one function: it ignores its parameter and returns
/// `S::from(1)`, the same value at every parameter.
pub fn one<T, S: From<u8> + Copy>() -> (r: impl Fn(T) -> S)
    ensures
        forall|a: T| #[trigger] r.requires((a,)),
        forall|a: T, b: S|
            #[trigger] r.ensures((a,), b) ==> (S::obeys_from_spec() ==> b == S::from_spec(1u8)),
        forall|a1: T, a2: T, b1: S, b2: S|
            #[trigger] r.ensures((a1,), b1) && #[trigger] r.ensures((a2,), b2) ==> b1 == b2,
{
    k(S::from(1u8))
}

/// Adds a new, unused argument to the right: the result takes `(u, t)` and
/// returns what `f` returns on `u`.
pub fn lift_right<T, U, V, F: Fn(U) -> V>(f: F) -> (r: impl Fn((U, T)) -> V)
    ensures
        forall|u: U, t: T| f.requires((u,)) ==> #[trigger] r.requires(((u, t),)),
        forall|u: U, t: T, v: V| #[trigger] r.ensures(((u, t),), v) ==> f.ensures((u,), v),
{
    move |p: (U, T)| -> (v: V)
        requires
            f.requires((p.0,)),
        ensures
            f.ensures((p.0,), v),
        {
            let (u, _t) = p;
            f(u)
        }
}

/// Adds a new, unused argument to the left: the result takes `(t, u)` and
/// returns what `f` returns on `u`.
pub fn lift_left<T, U, V, F: Fn(U) -> V>(f: F) -> (r: impl Fn((T, U)) -> V)
    ensures
        forall|t: T, u: U| f.requires((u,)) ==> #[trigger] r.requires(((t, u),)),
        forall|t: T, u: U, v: V| #[trigger] r.ensures(((t, u),), v) ==> f.ensures((u,), v),
{
    move |p: (T, U)| -> (v: V)
        requires
            f.requires((p.1,)),
        ensures
            f.ensures((p.1,), v),
        {
            let (_t, u) = p;
            f(u)
        }
}

/// Maps the input type into another: the result runs `f` on its argument
/// and then `a` on what `f` returned.
pub fn map<F, T, U, V, A: Fn(U) -> V>(a: A, f: F) -> (r: impl Fn(T) -> V) where
    F: Fn(T) -> U,
    ensures
        forall|t: T|
            f.requires((t,)) && (forall|u: U| f.ensures((t,), u) ==> a.requires((u,)))
                ==> #[trigger] r.requires((t,)),
        forall|t: T, v: V|
            #[trigger] r.ensures((t,), v) ==> exists|u: U| f.ensures((t,), u) && a.ensures((u,), v),
{
    move |t: T| -> (v: V)
        requires
            f.requires((t,)),
            forall|u: U| f.ensures((t,), u) ==> a.requires((u,)),
        ensures
            exists|u: U| f.ensures((t,), u) && a.ensures((u,), v),
        {
            let u = f(t);
            a(u)
        }
}

/// Adds two functions of the same parameter: the result returns the sum of
/// what `a` and `b` return.
pub fn add<T: Copy, S, A: Fn(T) -> S, B: Fn(T) -> S>(a: A, b: B) -> (r: impl Fn(T) -> S) where
    S: Add<S, Output = S>,
    ensures
        forall|t: T|
            a.requires((t,)) && b.requires((t,)) && (forall|x: S, y: S|
                a.ensures((t,), x) && b.ensures((t,), y) ==> x.add_req(y))
                ==> #[trigger] r.requires((t,)),
        forall|t: T, v: S|
            #[trigger] r.ensures((t,), v) ==> exists|x: S, y: S|
                #![trigger a.ensures((t,), x), b.ensures((t,), y)]
                a.ensures((t,), x) && b.ensures((t,), y) && (S::obeys_add_spec() ==> v
                    == x.add_spec(y)),
{
    move |t: T| -> (v: S)
        requires
            a.requires((t,)),
            b.requires((t,)),
            forall|x: S, y: S| a.ensures((t,), x) && b.ensures((t,), y) ==> x.add_req(y),
        ensures
            exists|x: S, y: S|
                #![trigger a.ensures((t,), x), b.ensures((t,), y)]
                a.ensures((t,), x) && b.ensures((t,), y) && (S::obeys_add_spec() ==> v
                    == x.add_spec(y)),
        {
            let x = a(t);
            let y = b(t);
            let v = x + y;
            assert(a.ensures((t,), x) && b.ensures((t,), y) && (S::obeys_add_spec() ==> v
                == x.add_spec(y)));
            v
        }
}

/// Subtracts two functions of the same parameter: the result returns what
/// `a` returns minus what `b` returns.
pub fn sub<T: Copy, S, A: Fn(T) -> S, B: Fn(T) -> S>(a: A, b: B) -> (r: impl Fn(T) -> S) where
    S: Sub<S, Output = S>,
    ensures
        forall|t: T|
            a.requires((t,)) && b.requires((t,)) && (forall|x: S, y: S|
                a.ensures((t,), x) && b.ensures((t,), y) ==> x.sub_req(y))
                ==> #[trigger] r.requires((t,)),
        forall|t: T, v: S|
            #[trigger] r.ensures((t,), v) ==> exists|x: S, y: S|
                #![trigger a.ensures((t,), x), b.ensures((t,), y)]
                a.ensures((t,), x) && b.ensures((t,), y) && (S::obeys_sub_spec() ==> v
                    == x.sub_spec(y)),
{
    move |t: T| -> (v: S)
        requires
            a.requires((t,)),
            b.requires((t,)),
            forall|x: S, y: S| a.ensures((t,), x) && b.ensures((t,), y) ==> x.sub_req(y),
        ensures
            exists|x: S, y: S|
                #![trigger a.ensures((t,), x), b.ensures((t,), y)]
                a.ensures((t,), x) && b.ensures((t,), y) && (S::obeys_sub_spec() ==> v
                    == x.sub_spec(y)),
        {
            let x = a(t);
            let y = b(t);
            let v = x - y;
            assert(a.ensures((t,), x) && b.ensures((t,), y) && (S::obeys_sub_spec() ==> v
                == x.sub_spec(y)));
            v
        }
}

/// Multiplies two functions of the same parameter: the result returns the
/// product of what `a` and `b` return.
pub fn mul<T: Copy, S, A: Fn(T) -> S, B: Fn(T) -> S>(a: A, b: B) -> (r: impl Fn(T) -> S) where
    S: Mul<S, Output = S>,
    ensures
        forall|t: T|
            a.requires((t,)) && b.requires((t,)) && (forall|x: S, y: S|
                a.ensures((t,), x) && b.ensures((t,), y) ==> x.mul_req(y))
                ==> #[trigger] r.requires((t,)),
        forall|t: T, v: S|
            #[trigger] r.ensures((t,), v) ==> exists|x: S, y: S|
                #![trigger a.ensures((t,), x), b.ensures((t,), y)]
                a.ensures((t,), x) && b.ensures((t,), y) && (S::obeys_mul_spec() ==> v
                    == x.mul_spec(y)),
{
    move |t: T| -> (v: S)
        requires
            a.requires((t,)),
            b.requires((t,)),
            forall|x: S, y: S| a.ensures((t,), x) && b.ensures((t,), y) ==> x.mul_req(y),
        ensures
            exists|x: S, y: S|
                #![trigger a.ensures((t,), x), b.ensures((t,), y)]
                a.ensures((t,), x) && b.ensures((t,), y) && (S::obeys_mul_spec() ==> v
                    == x.mul_spec(y)),
        {
            let x = a(t);
            let y = b(t);
            let v = x * y;
            assert(a.ensures((t,), x) && b.ensures((t,), y) && (S::obeys_mul_spec() ==> v
                == x.mul_spec(y)));
            v
        }
}

/// Whether the operations that `line` uses on `T` and `V` behave as their
/// specifications say.
pub open spec fn obeys_line_spec<T, V>() -> bool where
    T: Add<T, Output = T> + Sub<T, Output = T> + Mul<V, Output = T>,
 {
    T::obeys_add_spec() && T::obeys_sub_spec() && T::obeys_mul_spec()
}

/// Whether `line(a, b, t)` can be computed without violating the
/// preconditions of the operations it uses.  Where an operation is not known
/// to follow its specification, the next one must accept any value.
pub open spec fn line_req<T, V>(a: T, b: T, t: V) -> bool where
    T: Add<T, Output = T> + Sub<T, Output = T> + Mul<V, Output = T>,
 {
    &&& b.sub_req(a)
    &&& forall|d: T|
        #![trigger d.mul_req(t)]
        (T::obeys_sub_spec() ==> d == b.sub_spec(a)) ==> {
            &&& d.mul_req(t)
            &&& forall|m: T|
                #![trigger a.add_req(m)]
                (T::obeys_mul_spec() ==> m == d.mul_spec(t)) ==> a.add_req(m)
        }
}

/// The linear combination `a + (b - a) * t`.
pub open spec fn line_spec<T, V>(a: T, b: T, t: V) -> T where
    T: Add<T, Output = T> + Sub<T, Output = T> + Mul<V, Output = T>,
 {
    a.add_spec(b.sub_spec(a).mul_spec(t))
}

/// Creates a linear combination of two shapes: `a + (b - a) * t`.
pub fn line<T: Copy, V: Copy>(a: &T, b: &T, t: &V) -> (r: T) where
    T: Add<T, Output = T> + Sub<T, Output = T> + Mul<V, Output = T>,
    requires
        line_req(*a, *b, *t),
    ensures
        obeys_line_spec::<T, V>() ==> r == line_spec(*a, *b, *t),
{
    let a1 = *a;
    let d = *b - a1;
    assert(d.mul_req(*t));
    let m = d * *t;
    assert(a1.add_req(m));
    a1 + m
}

/// Calls a function of a pair with its first component only: the result is a
/// function of the second component.
pub fn call_first<T: Copy, U, V, F: Fn((T, U)) -> V>(f: F, t: T) -> (r: impl Fn(U) -> V)
    ensures
        forall|u: U| f.requires(((t, u),)) ==> #[trigger] r.requires((u,)),
        forall|u: U, v: V| #[trigger] r.ensures((u,), v) ==> f.ensures(((t, u),), v),
{
    move |u: U| -> (v: V)
        requires
            f.requires(((t, u),)),
        ensures
            f.ensures(((t, u),), v),
        { f((t, u)) }
}

/// Turns a function of a pair into a function of a two-element array: the
/// result calls `f` on the pair of the array's elements.
pub fn array_arg<T: Copy, V, F: Fn((T, T)) -> V>(f: F) -> (r: impl Fn([T; 2]) -> V)
    ensures
        forall|a: [T; 2]| f.requires(((a@[0], a@[1]),)) ==> #[trigger] r.requires((a,)),
        forall|a: [T; 2], v: V| #[trigger] r.ensures((a,), v) ==> f.ensures(((a@[0], a@[1]),), v),
{
    move |a: [T; 2]| -> (v: V)
        requires
            f.requires(((a@[0], a@[1]),)),
        ensures
            f.ensures(((a@[0], a@[1]),), v),
        { f((a[0], a[1])) }
}

/// Whether `qbez(a, b, c, t)` can be computed: both inner lines can, and so
/// can the line between any values that they may return.
pub open spec fn qbez_req<T, V>(a: T, b: T, c: T, t: V) -> bool where
    T: Add<T, Output = T> + Sub<T, Output = T> + Mul<V, Output = T>,
 {
    &&& line_req(a, b, t)
    &&& line_req(b, c, t)
    &&& forall|p: T, q: T|
        (obeys_line_spec::<T, V>() ==> p == line_spec(a, b, t) && q == line_spec(b, c, t))
            ==> line_req(p, q, t)
}

/// The quadratic Bezier blend: the line between the lines `a`-`b` and `b`-`c`.
pub open spec fn qbez_spec<T, V>(a: T, b: T, c: T, t: V) -> T where
    T: Add<T, Output = T> + Sub<T, Output = T> + Mul<V, Output = T>,
 {
    line_spec(line_spec(a, b, t), line_spec(b, c, t), t)
}

/// Constructs a quadratic Bezier blend of three shapes.
pub fn qbez<T: Copy, V: Copy>(a: &T, b: &T, c: &T, t: &V) -> (r: T) where
    T: Add<T, Output = T> + Sub<T, Output = T> + Mul<V, Output = T>,
    requires
        qbez_req(*a, *b, *c, *t),
    ensures
        obeys_line_spec::<T, V>() ==> r == qbez_spec(*a, *b, *c, *t),
{
    let p = line(a, b, t);
    let q = line(b, c, t);
    line(&p, &q, t)
}

/// Whether `cbez(a, b, c, d, t)` can be computed.
pub open spec fn cbez_req<T, V>(a: T, b: T, c: T, d: T, t: V) -> bool where
    T: Add<T, Output = T> + Sub<T, Output = T> + Mul<V, Output = T>,
 {
    &&& line_req(a, b, t)
    &&& line_req(c, d, t)
    &&& forall|p: T, q: T|
        (obeys_line_spec::<T, V>() ==> p == line_spec(a, b, t) && q == line_spec(c, d, t))
            ==> line_req(p, q, t)
}

/// The blend that `cbez` computes: the line between the lines `a`-`b` and
/// `c`-`d`.  This is a linear blend of two lines, not a De Casteljau cubic.
pub open spec fn cbez_spec<T, V>(a: T, b: T, c: T, d: T, t: V) -> T where
    T: Add<T, Output = T> + Sub<T, Output = T> + Mul<V, Output = T>,
 {
    line_spec(line_spec(a, b, t), line_spec(c, d, t), t)
}

/// Constructs the blend of four shapes that is used as a cubic Bezier: the
/// line between the lines `a`-`b` and `c`-`d`.
pub fn cbez<T: Copy, V: Copy>(a: &T, b: &T, c: &T, d: &T, t: &V) -> (r: T) where
    T: Add<T, Output = T> + Sub<T, Output = T> + Mul<V, Output = T>,
    requires
        cbez_req(*a, *b, *c, *d, *t),
    ensures
        obeys_line_spec::<T, V>() ==> r == cbez_spec(*a, *b, *c, *d, *t),
{
    let p = line(a, b, t);
    let q = line(c, d, t);
    line(&p, &q, t)
}

/// Linear combination of two shape functions by a scalar function, all of
/// the same parameter: at each parameter, `a + (b - a) * t`.
pub fn line_fn<P: Copy, T: Copy, V: Copy, A, B, F>(a: A, b: B, t: F) -> (r: impl Fn(P) -> T) where
    T: Add<T, Output = T> + Sub<T, Output = T> + Mul<V, Output = T>,
    A: Fn(P) -> T,
    B: Fn(P) -> T,
    F: Fn(P) -> V,
    ensures
        forall|p: P|
            a.requires((p,)) && b.requires((p,)) && t.requires((p,)) && (forall|x: T, y: T, s: V|
                a.ensures((p,), x) && b.ensures((p,), y) && t.ensures((p,), s) ==> line_req(
                    x,
                    y,
                    s,
                )) ==> #[trigger] r.requires((p,)),
        forall|p: P, v: T|
            #[trigger] r.ensures((p,), v) ==> exists|x: T, y: T, s: V|
                #![trigger a.ensures((p,), x), b.ensures((p,), y), t.ensures((p,), s)]
                a.ensures((p,), x) && b.ensures((p,), y) && t.ensures((p,), s) && (
                obeys_line_spec::<T, V>() ==> v == line_spec(x, y, s)),
{
    move |p: P| -> (v: T)
        requires
            a.requires((p,)),
            b.requires((p,)),
            t.requires((p,)),
            forall|x: T, y: T, s: V|
                a.ensures((p,), x) && b.ensures((p,), y) && t.ensures((p,), s) ==> line_req(x, y, s),
        ensures
            exists|x: T, y: T, s: V|
                #![trigger a.ensures((p,), x), b.ensures((p,), y), t.ensures((p,), s)]
                a.ensures((p,), x) && b.ensures((p,), y) && t.ensures((p,), s) && (
                obeys_line_spec::<T, V>() ==> v == line_spec(x, y, s)),
        {
            let x = a(p);
            let y = b(p);
            let s = t(p);
            let v = line(&x, &y, &s);
            assert(a.ensures((p,), x) && b.ensures((p,), y) && t.ensures((p,), s) && (
            obeys_line_spec::<T, V>() ==> v == line_spec(x, y, s)));
            v
        }
}

/// Quadratic Bezier blend of three shape functions by a scalar function, all
/// of the same parameter.
pub fn qbez_fn<P: Copy, T: Copy, V: Copy, A, B, C, F>(a: A, b: B, c: C, t: F) -> (r: impl Fn(P) -> T) where
    T: Add<T, Output = T> + Sub<T, Output = T> + Mul<V, Output = T>,
    A: Fn(P) -> T,
    B: Fn(P) -> T,
    C: Fn(P) -> T,
    F: Fn(P) -> V,
    ensures
        forall|p: P|
            a.requires((p,)) && b.requires((p,)) && c.requires((p,)) && t.requires((p,)) && (
            forall|x: T, y: T, z: T, s: V|
                a.ensures((p,), x) && b.ensures((p,), y) && c.ensures((p,), z) && t.ensures(
                    (p,),
                    s,
                ) ==> qbez_req(x, y, z, s)) ==> #[trigger] r.requires((p,)),
        forall|p: P, v: T|
            #[trigger] r.ensures((p,), v) ==> exists|x: T, y: T, z: T, s: V|
                #![trigger a.ensures((p,), x), b.ensures((p,), y), c.ensures((p,), z), t.ensures((p,), s)]
                a.ensures((p,), x) && b.ensures((p,), y) && c.ensures((p,), z) && t.ensures(
                    (p,),
                    s,
                ) && (obeys_line_spec::<T, V>() ==> v == qbez_spec(x, y, z, s)),
{
    move |p: P| -> (v: T)
        requires
            a.requires((p,)),
            b.requires((p,)),
            c.requires((p,)),
            t.requires((p,)),
            forall|x: T, y: T, z: T, s: V|
                a.ensures((p,), x) && b.ensures((p,), y) && c.ensures((p,), z) && t.ensures(
                    (p,),
                    s,
                ) ==> qbez_req(x, y, z, s),
        ensures
            exists|x: T, y: T, z: T, s: V|
                #![trigger a.ensures((p,), x), b.ensures((p,), y), c.ensures((p,), z), t.ensures((p,), s)]
                a.ensures((p,), x) && b.ensures((p,), y) && c.ensures((p,), z) && t.ensures(
                    (p,),
                    s,
                ) && (obeys_line_spec::<T, V>() ==> v == qbez_spec(x, y, z, s)),
        {
            let x = a(p);
            let y = b(p);
            let z = c(p);
            let s = t(p);
            let v = qbez(&x, &y, &z, &s);
            assert(a.ensures((p,), x) && b.ensures((p,), y) && c.ensures((p,), z) && t.ensures(
                (p,),
                s,
            ) && (obeys_line_spec::<T, V>() ==> v == qbez_spec(x, y, z, s)));
            v
        }
}

/// On the unit segment `[n, n + 1)`, whether `zip` evaluates its second
/// function, and the offset added to the fraction of the parameter.
pub open spec fn zip_segment_spec(n: int) -> (bool, int) {
    if n % 2 == 1 {
        (true, (n - 1) / 2)
    } else {
        (false, n / 2)
    }
}


/// The integer part of `zip`: on the unit segment `[n, n + 1)`, whether the
/// second function is evaluated (for odd `n`), and the offset added to the
/// fraction of the parameter (`n / 2` for even `n`, `(n - 1) / 2` for odd
/// `n`, both exact).
pub fn zip_segment(n: i64) -> (r: (bool, i64))
    ensures
        (r.0, r.1 as int) == zip_segment_spec(n as int),
{
    let q = n / 2;
    let m = n % 2;
    if m == 0 {
        (false, q)
    } else if m > 0 {
        (true, q)
    } else {
        (true, q - 1)
    }
}

} // verus!
