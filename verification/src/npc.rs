//! A figure that walks around the planet, always toward an angle it was
//! given, and toward a new one as soon as it gets there.
//!
//! Cosine and sine are not among the operators a scalar brings, so the host
//! supplies the direction that belongs to an angle.

use crate::vector::{above, below, well_behaved, Scalar, Vec2};
use vstd::prelude::*;
use vstd::std_specs::ops::{AddSpec, MulSpec, RemSpec, SubSpec};

verus! {

/// The angles the walk is measured with, in the unit of the host's choice.
#[derive(Clone, Copy, Debug, PartialEq)]
pub struct Turn<S> {
    /// No angle at all.
    pub zero: S,
    /// A quarter of a turn.
    pub quarter: S,
    /// Half a turn.
    pub half: S,
    /// A full turn.
    pub full: S,
}

/// A figure on its orbit.
#[derive(Clone, Copy, Debug, PartialEq)]
pub struct Npc<S> {
    pub position: Vec2<S>,
    pub rotation: S,
    pub orbit_center: Vec2<S>,
    pub orbit_radius: S,
    pub current_angle: S,
    pub target_angle: S,
    pub angular_velocity: S,
}

/// Where to draw a figure, and turned by how much.
#[derive(Clone, Copy, Debug, PartialEq)]
pub struct Sprite<S> {
    pub position: Vec2<S>,
    pub rotation: S,
}

/// The point on the orbit in the given direction from its centre.
pub open spec fn orbit_point<S: Scalar>(orbit_center: Vec2<S>, orbit_radius: S, direction: Vec2<S>) -> Vec2<S> {
    Vec2 {
        x: orbit_center.x.add_spec(orbit_radius.mul_spec(direction.x)),
        y: orbit_center.y.add_spec(orbit_radius.mul_spec(direction.y)),
    }
}

/// An angle plus a full turn, reduced by full turns.
pub open spec fn wrapped<S: Scalar>(angle: S, turn: Turn<S>) -> S {
    angle.add_spec(turn.full).rem_spec(turn.full)
}

/// How far ahead of `current` the angle `target` lies, going forward.
pub open spec fn angle_gap<S: Scalar>(current: S, target: S, turn: Turn<S>) -> S {
    wrapped(target.sub_spec(current), turn)
}

/// The target is ahead by less than one step, or reached.
pub open spec fn within_reach<S: Scalar>(gap: S, step: S) -> bool {
    below(gap, step)
}

/// The angle after one step from `current` toward `target`: the target
/// itself when it is within reach; else one step back where the target is
/// more than half a turn ahead, and one step forward where it is not.
pub open spec fn stepped_angle<S: Scalar>(current: S, target: S, step: S, turn: Turn<S>) -> S {
    let gap = angle_gap(current, target, turn);
    if within_reach(gap, step) {
        target
    } else if above(gap, turn.half) {
        current.sub_spec(step)
    } else {
        current.add_spec(step)
    }
}

impl<S: Scalar> Npc<S> {
    /// The orbit and the pace stay what they were in `before`.
    pub open spec fn same_orbit(&self, before: &Npc<S>) -> bool {
        &&& self.orbit_center == before.orbit_center
        &&& self.orbit_radius == before.orbit_radius
        &&& self.angular_velocity == before.angular_velocity
    }

    /// What `advance` makes of `before`, with `fresh_target` at hand.
    pub open spec fn advanced(&self, before: &Npc<S>, turn: Turn<S>, fresh_target: S) -> bool {
        let gap = angle_gap(before.current_angle, before.target_angle, turn);
        &&& self.current_angle == wrapped(
            stepped_angle(
                before.current_angle,
                before.target_angle,
                before.angular_velocity,
                turn,
            ),
            turn,
        )
        &&& self.target_angle == if within_reach(gap, before.angular_velocity) {
            fresh_target
        } else {
            before.target_angle
        }
        &&& self.rotation == self.current_angle.add_spec(turn.quarter)
        &&& self.same_orbit(before)
    }

    /// What `update` makes of `before`, with `heading` giving the direction
    /// of an angle.
    pub open spec fn updated<F: Fn(S) -> Vec2<S>>(
        &self,
        before: &Npc<S>,
        turn: Turn<S>,
        fresh_target: S,
        heading: &F,
    ) -> bool {
        &&& self.advanced(before, turn, fresh_target)
        &&& exists|direction: Vec2<S>|
            {
                &&& #[trigger] call_ensures(*heading, (self.current_angle,), direction)
                &&& self.position == orbit_point(
                    self.orbit_center,
                    self.orbit_radius,
                    direction,
                )
            }
    }

    /// A figure on the orbit of radius `orbit_radius` around `planet_center`,
    /// at `initial_angle`, bound for `target_angle` by steps of
    /// `angular_velocity`, and not turned. `direction` is the direction of
    /// `initial_angle`.
    pub fn new(
        planet_center: Vec2<S>,
        orbit_radius: S,
        initial_angle: S,
        target_angle: S,
        angular_velocity: S,
        zero: S,
        direction: Vec2<S>,
    ) -> (npc: Npc<S>)
        requires
            well_behaved::<S>(),
        ensures
            npc == (Npc {
                position: orbit_point(planet_center, orbit_radius, direction),
                rotation: zero,
                orbit_center: planet_center,
                orbit_radius,
                current_angle: initial_angle,
                target_angle,
                angular_velocity,
            }),
    {
        Npc {
            position: Self::calculate_position(planet_center, orbit_radius, direction),
            rotation: zero,
            orbit_center: planet_center,
            orbit_radius,
            current_angle: initial_angle,
            target_angle,
            angular_velocity,
        }
    }

    /// The point on the orbit in the given direction from its centre.
    pub fn calculate_position(orbit_center: Vec2<S>, orbit_radius: S, direction: Vec2<S>) -> (point: Vec2<S>)
        requires
            well_behaved::<S>(),
        ensures
            point == orbit_point(orbit_center, orbit_radius, direction),
    {
        Vec2 {
            x: orbit_center.x + orbit_radius * direction.x,
            y: orbit_center.y + orbit_radius * direction.y,
        }
    }

    /// Sets the angle to walk toward.
    pub fn update_target_angle(&mut self, target_angle: S)
        ensures
            *final(self) == (Npc { target_angle, ..*old(self) }),
    {
        self.target_angle = target_angle;
    }

    /// Tells whether the next step lands on the target: the target is less
    /// than one step ahead, or reached. Only then does a step use the fresh
    /// target it is given.
    pub fn arrives(&self, turn: &Turn<S>) -> (landing: bool)
        requires
            well_behaved::<S>(),
        ensures
            landing == within_reach(
                angle_gap(self.current_angle, self.target_angle, *turn),
                self.angular_velocity,
            ),
    {
        let gap = (self.target_angle - self.current_angle + turn.full) % turn.full;
        gap < self.angular_velocity
    }

    /// One step of the angle. Where the target is less than one step ahead,
    /// or reached, the figure lands on it and takes `fresh_target` as its
    /// next one; else it goes one step, the shorter way round. The angle is then reduced into one turn,
    /// and the figure is turned a quarter further than its angle, to face
    /// along the orbit. The position is left for `place`.
    pub fn advance(&mut self, turn: &Turn<S>, fresh_target: S)
        requires
            well_behaved::<S>(),
        ensures
            final(self).advanced(old(self), *turn, fresh_target),
            final(self).position == old(self).position,
    {
        if self.arrives(turn) {
            self.current_angle = self.target_angle;
            self.update_target_angle(fresh_target);
        } else if (self.target_angle - self.current_angle + turn.full) % turn.full > turn.half {
            self.current_angle = self.current_angle - self.angular_velocity;
        } else {
            self.current_angle = self.current_angle + self.angular_velocity;
        }
        self.current_angle = (self.current_angle + turn.full) % turn.full;
        self.rotation = self.current_angle + turn.quarter;
    }

    /// Puts the figure on its orbit in the given direction from the centre.
    pub fn place(&mut self, direction: Vec2<S>)
        requires
            well_behaved::<S>(),
        ensures
            *final(self) == (Npc {
                position: orbit_point(old(self).orbit_center, old(self).orbit_radius, direction),
                ..*old(self)
            }),
    {
        self.position = Self::calculate_position(self.orbit_center, self.orbit_radius, direction);
    }

    /// One tick: a step of the angle, then the position that belongs to the
    /// new angle, in the direction that `heading` gives for it.
    pub fn update<F: Fn(S) -> Vec2<S>>(&mut self, turn: &Turn<S>, fresh_target: S, heading: &F)
        requires
            well_behaved::<S>(),
            forall|angle: S| call_requires(*heading, (angle,)),
        ensures
            final(self).updated(old(self), *turn, fresh_target, heading),
    {
        self.advance(turn, fresh_target);
        let direction = heading(self.current_angle);
        self.place(direction);
    }

    /// Where to draw the figure, and turned by how much.
    pub fn draw(&self) -> (sprite: Sprite<S>)
        ensures
            sprite == (Sprite { position: self.position, rotation: self.rotation }),
    {
        Sprite { position: self.position, rotation: self.rotation }
    }
}

} // verus!
