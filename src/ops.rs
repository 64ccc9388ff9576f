//! Operator traits.

use vstd::prelude::*;

verus! {

/// Operator for mapping input type into another.
pub trait MapInput<T, U> {
    /// The output type.
    type Output;

    /// Maps input into another.
    fn map<F: Fn(U) -> T + Clone>(self, f: F) -> Self::Output;
}

/// Dot operator.
pub trait Dot<Rhs = Self>: Sized {
    /// The output type.
    type Output;

    /// Whether the dot product of `self` and `other` can be computed.
    spec fn dot_req(self, other: Rhs) -> bool;

    /// Returns the dot product.
    fn dot(self, other: Rhs) -> (r: Self::Output)
        requires
            self.dot_req(other),
    ;
}

/// Cross operator.
pub trait Cross<Rhs = Self>: Sized {
    /// The output type.
    type Output;

    /// Whether the cross product of `self` and `other` can be computed.
    spec fn cross_req(self, other: Rhs) -> bool;

    /// Returns the cross product.
    fn cross(self, other: Rhs) -> (r: Self::Output)
        requires
            self.cross_req(other),
    ;
}

/// Norm operator.
pub trait Norm {
    /// The output type.
    type Output;

    /// Returns the norm.
    fn norm(self) -> Self::Output;
}

/// AABB operator.
pub trait AABB {
    /// The corner type.
    type Corner;

    /// Returns the minimum and maximum corner.
    fn aabb(&self) -> (Self::Corner, Self::Corner);
}

} // verus!
