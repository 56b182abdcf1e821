//! A ball in the gravity well of the planet: the force on it, one step of its
//! motion, and the bounce when it touches the planet.
//!
//! A length is the square root of a sum of squares, and a square root is not
//! among the operators a scalar brings. So the functions that need the
//! distance between ball and planet take it as an argument, and `update`
//! takes the root function.

use crate::planet::{check_size, size_fault, BodyError, Color, Planet};
use crate::trail::{after_push, line_strip, Trail};
use crate::vector::{at_most, well_behaved, Scalar, Vec2};
use vstd::prelude::*;
use vstd::std_specs::cmp::{PartialEqSpec, PartialOrdSpec};
use vstd::std_specs::ops::{AddSpec, DivSpec, MulSpec, SubSpec};

verus! {

/// The constants of the force law.
#[derive(Clone, Copy, Debug, PartialEq)]
pub struct Tuning<S> {
    /// The scalar zero.
    pub zero: S,
    /// The gravitational constant. It is chosen for the scale of the game,
    /// not taken from nature.
    pub gravity: S,
    /// The distance that stands in where ball and planet coincide.
    pub epsilon: S,
}

/// Where a body is and how it moves.
#[derive(Clone, Copy, Debug, PartialEq)]
pub struct Motion<S> {
    pub position: Vec2<S>,
    pub velocity: Vec2<S>,
}

/// A moving body. It leaves a trail, and it is hidden for good once it has
/// touched the planet.
pub struct Ball<S> {
    pub is_visable: bool,
    pub mass: S,
    pub position: Vec2<S>,
    pub velocity: Vec2<S>,
    pub radius: S,
    pub color: Color<S>,
    pub trail: Trail<Vec2<S>>,
}

/// What to draw of a ball: the line strip of its trail, and a disc of the
/// ball's radius and colour at its position.
pub struct BallPicture<S> {
    pub trail: Vec<Vec2<S>>,
    pub position: Vec2<S>,
    pub radius: S,
    pub color: Color<S>,
}

/// The square of the distance between two points.
pub open spec fn squared_distance<S: Scalar>(from: Vec2<S>, to: Vec2<S>) -> S {
    to.spec_minus(from).spec_squared_length()
}

/// The distance to divide by: `epsilon` in place of a distance of zero.
pub open spec fn safe_distance<S: Scalar>(distance: S, tuning: Tuning<S>) -> S {
    if distance.eq_spec(&tuning.zero) {
        tuning.epsilon
    } else {
        distance
    }
}

/// How strongly two masses `apart` from each other attract: the constant
/// times both masses, over the square of the distance.
pub open spec fn pull<S: Scalar>(mass: S, other_mass: S, apart: S, tuning: Tuning<S>) -> S {
    tuning.gravity.mul_spec(mass.mul_spec(other_mass)).div_spec(apart.mul_spec(apart))
}

/// The force on a body at `from` with mass `mass` toward an attractor at `to`
/// with mass `other_mass`, `distance` apart: the unit vector toward the
/// attractor, times the pull between the two.
pub open spec fn force_of_gravity<S: Scalar>(
    from: Vec2<S>,
    mass: S,
    to: Vec2<S>,
    other_mass: S,
    distance: S,
    tuning: Tuning<S>,
) -> Vec2<S> {
    let apart = safe_distance(distance, tuning);
    let toward = to.spec_minus(from).spec_shrunk(apart);
    toward.spec_scaled(pull(mass, other_mass, apart, tuning))
}

/// One step of motion under `force`: the velocity first gains the
/// acceleration over the time, then the position moves by the new velocity
/// over the time.
pub open spec fn fallen<S: Scalar>(start: Motion<S>, mass: S, force: Vec2<S>, delta_time: S) -> Motion<S> {
    let velocity = start.velocity.spec_plus(force.spec_shrunk(mass).spec_scaled(delta_time));
    Motion { position: start.position.spec_plus(velocity.spec_scaled(delta_time)), velocity }
}

/// A body of radius `radius`, `distance` away from the centre of the planet,
/// touches it.
pub open spec fn touches<S: Scalar>(radius: S, planet: Planet<S>, distance: S) -> bool {
    at_most(distance, radius.add_spec(planet.radius))
}

/// The velocity mirrored at the line across `normal`: the velocity less
/// twice its part along `normal`.
pub open spec fn reflected<S: Scalar>(velocity: Vec2<S>, normal: Vec2<S>) -> Vec2<S> {
    let along = velocity.spec_dot(normal);
    velocity.spec_minus(normal.spec_scaled(along.add_spec(along)))
}

/// The motion of a body after it has touched the planet, `distance` from its
/// centre: the velocity is mirrored at the normal toward the planet, and the
/// body is moved back along it by as much as the two overlap.
pub open spec fn bounced<S: Scalar>(hit: Motion<S>, radius: S, planet: Planet<S>, distance: S) -> Motion<S> {
    let normal = planet.position.spec_minus(hit.position).spec_shrunk(distance);
    let overlap = radius.add_spec(planet.radius).sub_spec(distance);
    Motion {
        position: hit.position.spec_minus(normal.spec_scaled(overlap)),
        velocity: reflected(hit.velocity, normal),
    }
}

/// The position after a step is the old position plus the time times the
/// new velocity, which is the old velocity plus the time times the force over
/// the mass: the position moves by the velocity after its change, not by the
/// one before.
pub proof fn position_moves_by_new_velocity<S: Scalar>(
    start: Motion<S>,
    mass: S,
    force: Vec2<S>,
    delta_time: S,
)
    ensures
        fallen(start, mass, force, delta_time).velocity == start.velocity.spec_plus(
            force.spec_shrunk(mass).spec_scaled(delta_time),
        ),
        fallen(start, mass, force, delta_time).position == start.position.spec_plus(
            start.velocity.spec_plus(force.spec_shrunk(mass).spec_scaled(delta_time)).spec_scaled(
                delta_time,
            ),
        ),
{
}

/// Computes the pull of `object2` on `object1`, which are `distance` apart.
pub fn get_force_of_gravity<S: Scalar>(
    object1: &Ball<S>,
    object2: &Planet<S>,
    distance: S,
    tuning: &Tuning<S>,
) -> (force: Vec2<S>)
    requires
        well_behaved::<S>(),
    ensures
        force == force_of_gravity(
            object1.position,
            object1.mass,
            object2.position,
            object2.mass,
            distance,
            *tuning,
        ),
{
    let offset = object2.position.minus(object1.position);
    let apart = if distance == tuning.zero {
        tuning.epsilon
    } else {
        distance
    };
    let toward = offset.shrunk(apart);
    let magnitude = tuning.gravity * (object1.mass * object2.mass) / (apart * apart);
    toward.scaled(magnitude)
}

impl<S: Scalar> Ball<S> {
    /// The position and the velocity.
    pub open spec fn motion(&self) -> Motion<S> {
        Motion { position: self.position, velocity: self.velocity }
    }

    /// The motion after the gravity step of one frame, `distance` from the
    /// planet.
    pub open spec fn after_fall(&self, planet: Planet<S>, distance: S, delta_time: S, tuning: Tuning<S>) -> Motion<S> {
        fallen(
            self.motion(),
            self.mass,
            force_of_gravity(self.position, self.mass, planet.position, planet.mass, distance, tuning),
            delta_time,
        )
    }

    /// The motion after the collision step of one frame, `distance` from the
    /// planet.
    pub open spec fn after_bounce(&self, planet: Planet<S>, distance: S) -> Motion<S> {
        if touches(self.radius, planet, distance) {
            bounced(self.motion(), self.radius, planet, distance)
        } else {
            self.motion()
        }
    }

    /// `self` is `before` but for its motion, its trail and whether it shows.
    pub open spec fn same_body(&self, before: &Ball<S>) -> bool {
        &&& self.mass == before.mass
        &&& self.radius == before.radius
        &&& self.color == before.color
        &&& self.trail.limit() == before.trail.limit()
    }

    /// `self` is a ball as `new` makes it: visible, with the given motion,
    /// size and colour, and with an empty trail that keeps fifty positions.
    pub open spec fn is_fresh(
        &self,
        position: Vec2<S>,
        velocity: Vec2<S>,
        radius: S,
        mass: S,
        color: Color<S>,
    ) -> bool {
        &&& self.is_visable
        &&& self.position == position
        &&& self.velocity == velocity
        &&& self.radius == radius
        &&& self.mass == mass
        &&& self.color == color
        &&& self.trail@ == Seq::<Vec2<S>>::empty()
        &&& self.trail.limit() == 50
        &&& self.trail.within_bound()
    }

    /// `picture` is the picture of this ball: the line strip of its trail,
    /// and its disc.
    pub open spec fn pictured(&self, picture: BallPicture<S>) -> bool {
        &&& picture.position == self.position
        &&& picture.radius == self.radius
        &&& picture.color == self.color
        &&& picture.trail@ == line_strip(self.trail@)
    }

    /// What `draw` shows of the ball: its picture, and nothing of a hidden
    /// one.
    pub open spec fn shown(&self, picture: Option<BallPicture<S>>) -> bool {
        if self.is_visable {
            picture is Some && self.pictured(picture->Some_0)
        } else {
            picture is None
        }
    }

    /// The number of positions a new ball's trail keeps.
    pub const TRAIL_LENGTH: usize = 50;

    /// A visible ball with an empty trail, or the fault in its size where the
    /// radius or the mass is not greater than `zero`.
    pub fn new(
        position: Vec2<S>,
        velocity: Vec2<S>,
        radius: S,
        mass: S,
        color: Color<S>,
        zero: S,
    ) -> (made: Result<Ball<S>, BodyError>)
        ensures
            made is Ok ==> made->Ok_0.is_fresh(position, velocity, radius, mass, color),
            S::obeys_partial_cmp_spec() ==> match size_fault(radius, mass, zero) {
                Some(fault) => made == Err::<Ball<S>, BodyError>(fault),
                None => made is Ok,
            },
    {
        match check_size(radius, mass, zero) {
            Err(fault) => Err(fault),
            Ok(()) => Ok(
                Ball {
                    is_visable: true,
                    mass,
                    position,
                    velocity,
                    radius,
                    color,
                    trail: Trail::new(Self::TRAIL_LENGTH),
                },
            ),
        }
    }

    /// What to draw of the ball: its trail and its disc while it is
    /// visible, nothing once it is hidden.
    pub fn draw(&self) -> (picture: Option<BallPicture<S>>)
        ensures
            self.shown(picture),
    {
        if self.is_visable {
            Some(
                BallPicture {
                    trail: self.trail.draw(),
                    position: self.position,
                    radius: self.radius,
                    color: self.color,
                },
            )
        } else {
            None
        }
    }

    /// The square of the distance from the ball to the centre of the planet.
    pub fn squared_distance_to(&self, planet: &Planet<S>) -> (squared: S)
        requires
            well_behaved::<S>(),
        ensures
            squared == squared_distance(self.position, planet.position),
    {
        planet.position.minus(self.position).squared_length()
    }

    /// The gravity step: the planet, `distance` away, pulls on the ball for
    /// `delta_time`. The velocity changes first, and the position moves by
    /// the changed velocity.
    pub fn fall(&mut self, planet: &Planet<S>, distance: S, delta_time: S, tuning: &Tuning<S>)
        requires
            well_behaved::<S>(),
        ensures
            final(self).motion() == old(self).after_fall(*planet, distance, delta_time, *tuning),
            final(self).is_visable == old(self).is_visable,
            final(self).trail == old(self).trail,
            final(self).same_body(old(self)),
    {
        let force = get_force_of_gravity(self, planet, distance, tuning);
        self.velocity = self.velocity.plus(force.shrunk(self.mass).scaled(delta_time));
        self.position = self.position.plus(self.velocity.scaled(delta_time));
    }

    /// The collision step: where the ball, `distance` from the centre of the
    /// planet, touches it, the ball is hidden, its velocity mirrored and its
    /// position moved back out of the planet. Either way the position goes
    /// onto the trail. Returns whether the ball touched.
    pub fn bounce(&mut self, planet: &Planet<S>, distance: S) -> (hit: bool)
        requires
            well_behaved::<S>(),
        ensures
            hit == touches(old(self).radius, *planet, distance),
            final(self).motion() == old(self).after_bounce(*planet, distance),
            final(self).is_visable == (old(self).is_visable && !hit),
            final(self).trail@ == after_push(
                old(self).trail@,
                old(self).trail.limit(),
                final(self).position,
            ),
            old(self).trail.within_bound() ==> final(self).trail.within_bound(),
            final(self).same_body(old(self)),
    {
        let hit = distance <= self.radius + planet.radius;
        if hit {
            let normal = planet.position.minus(self.position).shrunk(distance);
            self.is_visable = false;
            let along = self.velocity.dot(normal);
            self.velocity = self.velocity.minus(normal.scaled(along + along));
            let overlap = self.radius + planet.radius - distance;
            self.position = self.position.minus(normal.scaled(overlap));
        }
        self.trail.push(self.position);
        hit
    }
}

/// What one frame makes of a visible ball, where `first` was the distance to
/// the planet before the gravity step and `second` the distance after it.
pub open spec fn frame_outcome<S: Scalar>(
    before: &Ball<S>,
    after: &Ball<S>,
    delta_time: S,
    planet: Planet<S>,
    tuning: Tuning<S>,
    first: S,
    second: S,
) -> bool {
    let fell = before.after_fall(planet, first, delta_time, tuning);
    let hit = touches(before.radius, planet, second);
    &&& after.motion() == if hit {
        bounced(fell, before.radius, planet, second)
    } else {
        fell
    }
    &&& after.is_visable == !hit
    &&& after.trail@ == after_push(before.trail@, before.trail.limit(), after.position)
    &&& before.trail.within_bound() ==> after.trail.within_bound()
    &&& after.same_body(before)
}

/// What one frame makes of a ball, with `root` as the square root. A hidden
/// ball stays as it is. A visible one takes the gravity step and then the
/// collision step, each with the distance that `root` gave for the position
/// the ball had at that moment.
pub open spec fn frame_passed<S: Scalar, F: Fn(S) -> S>(
    before: &Ball<S>,
    after: &Ball<S>,
    delta_time: S,
    planet: Planet<S>,
    tuning: Tuning<S>,
    root: &F,
) -> bool {
    if before.is_visable {
        exists|first: S, second: S|
            {
                &&& #[trigger] call_ensures(
                    *root,
                    (squared_distance(before.position, planet.position),),
                    first,
                )
                &&& #[trigger] call_ensures(
                    *root,
                    (
                        squared_distance(
                            before.after_fall(planet, first, delta_time, tuning).position,
                            planet.position,
                        ),
                    ),
                    second,
                )
                &&& frame_outcome(before, after, delta_time, planet, tuning, first, second)
            }
    } else {
        *after == *before
    }
}

impl<S: Scalar> Ball<S> {
    /// Advances the ball by one frame of `delta_time`: gravity, motion,
    /// collision with the planet, and one more position on the trail. `root`
    /// is the square root, which turns a squared distance into a distance. A
    /// ball that has been hidden is left as it is.
    pub fn update<F: Fn(S) -> S>(
        &mut self,
        delta_time: S,
        planet: &Planet<S>,
        tuning: &Tuning<S>,
        root: &F,
    )
        requires
            well_behaved::<S>(),
            forall|squared: S| call_requires(*root, (squared,)),
        ensures
            frame_passed(old(self), final(self), delta_time, *planet, *tuning, root),
    {
        if self.is_visable {
            let first = root(self.squared_distance_to(planet));
            self.fall(planet, first, delta_time, tuning);
            assert(self.position == old(self).after_fall(
                *planet,
                first,
                delta_time,
                *tuning,
            ).position) by {
                assert(self.motion().position == self.position);
            }
            let second = root(self.squared_distance_to(planet));
            let _ = self.bounce(planet, second);
            proof {
                assert(frame_outcome(
                    old(self),
                    self,
                    delta_time,
                    *planet,
                    *tuning,
                    first,
                    second,
                ));
            }
        }
    }
}

} // verus!
