//! Scalars of the host's choice, and vectors in the plane over them.
//!
//! The library never fixes the number type. It asks for a type with the four
//! operators, remainder and comparison, and states every result in terms of
//! that type's own operators: `add_spec`, `mul_spec` and the others.

use core::cmp::Ordering;
use core::ops::{Add, Div, Mul, Rem, Sub};
use vstd::prelude::*;
use vstd::std_specs::cmp::{PartialEqSpec, PartialOrdSpec};
use vstd::std_specs::ops::{AddSpec, DivSpec, MulSpec, RemSpec, SubSpec};

verus! {

/// What the library asks of a number type.
pub trait Scalar: Copy + PartialOrd + Add<Output = Self> + Sub<Output = Self> + Mul<
    Output = Self,
> + Div<Output = Self> + Rem<Output = Self> {

}

impl<S> Scalar for S where
    S: Copy + PartialOrd + Add<Output = S> + Sub<Output = S> + Mul<Output = S> + Div<
        Output = S,
    > + Rem<Output = S>,
 {

}

/// The operators of `S` are defined on every pair of operands, and each
/// returns the value that the type gives for it in contracts. The functions
/// that chain several operators ask for this, since they cannot name the
/// operands of the later ones in advance. It holds of arithmetic that neither
/// overflows nor fails, whatever the operands.
pub open spec fn well_behaved<S: Scalar>() -> bool {
    &&& S::obeys_add_spec()
    &&& S::obeys_sub_spec()
    &&& S::obeys_mul_spec()
    &&& S::obeys_div_spec()
    &&& S::obeys_rem_spec()
    &&& S::obeys_eq_spec()
    &&& S::obeys_partial_cmp_spec()
    &&& forall|a: S, b: S| #[trigger] a.add_req(b)
    &&& forall|a: S, b: S| #[trigger] a.sub_req(b)
    &&& forall|a: S, b: S| #[trigger] a.mul_req(b)
    &&& forall|a: S, b: S| #[trigger] a.div_req(b)
    &&& forall|a: S, b: S| #[trigger] a.rem_req(b)
}

/// `a < b` by the type's own order.
pub open spec fn below<S: Scalar>(a: S, b: S) -> bool {
    a.partial_cmp_spec(&b) == Some(Ordering::Less)
}

/// `a <= b` by the type's own order.
pub open spec fn at_most<S: Scalar>(a: S, b: S) -> bool {
    a.partial_cmp_spec(&b) matches Some(Ordering::Less | Ordering::Equal)
}

/// `a > b` by the type's own order.
pub open spec fn above<S: Scalar>(a: S, b: S) -> bool {
    a.partial_cmp_spec(&b) == Some(Ordering::Greater)
}

/// A point or a displacement in the plane.
#[derive(Clone, Copy, Debug, PartialEq)]
pub struct Vec2<S> {
    pub x: S,
    pub y: S,
}

impl<S: Scalar> Vec2<S> {
    /// The component-wise sum.
    pub open spec fn spec_plus(self, other: Vec2<S>) -> Vec2<S> {
        Vec2 { x: self.x.add_spec(other.x), y: self.y.add_spec(other.y) }
    }

    /// The component-wise difference.
    pub open spec fn spec_minus(self, other: Vec2<S>) -> Vec2<S> {
        Vec2 { x: self.x.sub_spec(other.x), y: self.y.sub_spec(other.y) }
    }

    /// Each component times `factor`.
    pub open spec fn spec_scaled(self, factor: S) -> Vec2<S> {
        Vec2 { x: self.x.mul_spec(factor), y: self.y.mul_spec(factor) }
    }

    /// Each component divided by `divisor`.
    pub open spec fn spec_shrunk(self, divisor: S) -> Vec2<S> {
        Vec2 { x: self.x.div_spec(divisor), y: self.y.div_spec(divisor) }
    }

    /// The dot product: the product of the x components plus that of the y
    /// components.
    pub open spec fn spec_dot(self, other: Vec2<S>) -> S {
        self.x.mul_spec(other.x).add_spec(self.y.mul_spec(other.y))
    }

    /// The square of the length.
    pub open spec fn spec_squared_length(self) -> S {
        self.spec_dot(self)
    }

    /// The vector with the given components.
    pub fn new(x: S, y: S) -> (v: Vec2<S>)
        ensures
            v == (Vec2 { x, y }),
    {
        Vec2 { x, y }
    }

    /// The component-wise sum, where both sums are defined.
    pub fn plus(self, other: Vec2<S>) -> (v: Vec2<S>)
        requires
            self.x.add_req(other.x),
            self.y.add_req(other.y),
        ensures
            S::obeys_add_spec() ==> v == self.spec_plus(other),
    {
        Vec2 { x: self.x + other.x, y: self.y + other.y }
    }

    /// The component-wise difference, where both differences are defined.
    pub fn minus(self, other: Vec2<S>) -> (v: Vec2<S>)
        requires
            self.x.sub_req(other.x),
            self.y.sub_req(other.y),
        ensures
            S::obeys_sub_spec() ==> v == self.spec_minus(other),
    {
        Vec2 { x: self.x - other.x, y: self.y - other.y }
    }

    /// Each component times `factor`, where both products are defined.
    pub fn scaled(self, factor: S) -> (v: Vec2<S>)
        requires
            self.x.mul_req(factor),
            self.y.mul_req(factor),
        ensures
            S::obeys_mul_spec() ==> v == self.spec_scaled(factor),
    {
        Vec2 { x: self.x * factor, y: self.y * factor }
    }

    /// Each component divided by `divisor`, where both quotients are
    /// defined.
    pub fn shrunk(self, divisor: S) -> (v: Vec2<S>)
        requires
            self.x.div_req(divisor),
            self.y.div_req(divisor),
        ensures
            S::obeys_div_spec() ==> v == self.spec_shrunk(divisor),
    {
        Vec2 { x: self.x / divisor, y: self.y / divisor }
    }

    /// The dot product. Its sum is taken of two products, so it asks for
    /// operators that are defined on all operands.
    pub fn dot(self, other: Vec2<S>) -> (d: S)
        requires
            well_behaved::<S>(),
        ensures
            d == self.spec_dot(other),
    {
        self.x * other.x + self.y * other.y
    }

    /// The square of the length.
    pub fn squared_length(self) -> (d: S)
        requires
            well_behaved::<S>(),
        ensures
            d == self.spec_squared_length(),
    {
        self.dot(self)
    }
}

} // verus!
