//! The one massive body that every ball falls toward.

use crate::vector::{above, Scalar, Vec2};
use vstd::std_specs::cmp::PartialOrdSpec;
use vstd::prelude::*;

verus! {

/// Why a body could not be made.
#[derive(Clone, Copy, Debug, PartialEq, Eq, Structural)]
pub enum BodyError {
    /// The radius is not greater than zero.
    Radius,
    /// The mass is not greater than zero.
    Mass,
}

/// The first fault in the size of a body, the radius before the mass, or
/// `None` where both are greater than `zero`.
pub open spec fn size_fault<S: Scalar>(radius: S, mass: S, zero: S) -> Option<BodyError> {
    if !above(radius, zero) {
        Some(BodyError::Radius)
    } else if !above(mass, zero) {
        Some(BodyError::Mass)
    } else {
        None
    }
}

/// Tells whether a radius and a mass are both greater than `zero`, and
/// which is not. The answer goes by the scalar's own order, and is stated
/// for every scalar whose comparisons keep to it.
pub fn check_size<S: Scalar>(radius: S, mass: S, zero: S) -> (outcome: Result<(), BodyError>)
    ensures
        S::obeys_partial_cmp_spec() ==> outcome == match size_fault(radius, mass, zero) {
            Some(fault) => Err::<(), BodyError>(fault),
            None => Ok(()),
        },
{
    if !(radius > zero) {
        Err(BodyError::Radius)
    } else if !(mass > zero) {
        Err(BodyError::Mass)
    } else {
        Ok(())
    }
}

/// A colour, by its red, green, blue and opaque parts. The library carries
/// colours from where a body is made to where it is drawn.
#[derive(Clone, Copy, Debug, PartialEq)]
pub struct Color<S> {
    pub r: S,
    pub g: S,
    pub b: S,
    pub a: S,
}

/// A fixed attractor. It never moves after it is made.
#[derive(Clone, Copy, Debug, PartialEq)]
pub struct Planet<S> {
    pub position: Vec2<S>,
    pub mass: S,
    pub radius: S,
    pub color: Color<S>,
}

impl<S: Scalar> Planet<S> {
    /// A planet at `position` in the given colour, or the fault in its size where the radius or
    /// the mass is not greater than `zero`.
    pub fn new(position: Vec2<S>, radius: S, mass: S, color: Color<S>, zero: S) -> (made: Result<
        Planet<S>,
        BodyError,
    >)
        ensures
            made is Ok ==> made->Ok_0 == (Planet { position, mass, radius, color }),
            S::obeys_partial_cmp_spec() ==> made == match size_fault(radius, mass, zero) {
                Some(fault) => Err::<Planet<S>, BodyError>(fault),
                None => Ok(Planet { position, mass, radius, color }),
            },
    {
        match check_size(radius, mass, zero) {
            Err(fault) => Err(fault),
            Ok(()) => Ok(Planet { position, mass, radius, color }),
        }
    }
}

} // verus!
