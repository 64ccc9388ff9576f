//! Laws of the combinators, stated over their specifications.

use vstd::prelude::*;
use crate::math::{line_req, line_spec, obeys_line_spec, zip_segment_spec};
use crate::point::Point;

verus! {

/// Linear interpolation meets its endpoints: at `0` the line between `a` and
/// `b` is `a`, and at `1` it is `b`.
pub proof fn lemma_line_endpoints(a: i64, b: i64)
    requires
        line_req(a, b, 0i64),
    ensures
        obeys_line_spec::<i64, i64>(),
        line_req(a, b, 1i64),
        line_spec(a, b, 0i64) == a,
        line_spec(a, b, 1i64) == b,
{
}

/// Linear interpolation of points meets its endpoints: at `0` the line
/// between `a` and `b` is `a`, and at `1` it is `b`.
pub proof fn lemma_point_line_endpoints(a: Point<i64>, b: Point<i64>)
    requires
        line_req(a, b, 0i64),
    ensures
        obeys_line_spec::<Point<i64>, i64>(),
        line_req(a, b, 1i64),
        line_spec(a, b, 0i64) == a,
        line_spec(a, b, 1i64) == b,
{
}

/// `zip` walks each of its two functions without a jump: the segment two
/// units on evaluates the same function with an offset one greater, so where
/// one segment of a function ends (fraction one) the next one of that
/// function begins (fraction zero).  Even segments evaluate the first
/// function, odd segments the second.
pub proof fn lemma_zip_segments_continue(n: int)
    ensures
        zip_segment_spec(n + 2).0 == zip_segment_spec(n).0,
        zip_segment_spec(n + 2).1 == zip_segment_spec(n).1 + 1,
        zip_segment_spec(2 * n) == (false, n),
        zip_segment_spec(2 * n + 1) == (true, n),
{
}

} // verus!
