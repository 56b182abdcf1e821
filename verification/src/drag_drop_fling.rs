//! The drag that flings a ball: press, move, release.

use crate::vector::{Scalar, Vec2};
use vstd::std_specs::ops::SubSpec;
use vstd::prelude::*;

verus! {

/// The state of the gesture. It is made idle, a press starts it, moves are
/// followed while it lasts, and a release ends it and yields the launch
/// vector.
#[allow(non_camel_case_types)]
#[derive(Clone, Copy, Debug, PartialEq)]
pub struct Drag_drop_fling<S> {
    pub start_position: Vec2<S>,
    pub current_position: Vec2<S>,
    pub is_dragging: bool,
}

impl<S: Scalar> Drag_drop_fling<S> {
    /// The gesture after a press at `position`.
    pub open spec fn pressed(position: Vec2<S>) -> Self {
        Drag_drop_fling { start_position: position, current_position: position, is_dragging: true }
    }

    /// The gesture after the pointer moved to `position`.
    pub open spec fn moved(self, position: Vec2<S>) -> Self {
        if self.is_dragging {
            Drag_drop_fling { current_position: position, ..self }
        } else {
            self
        }
    }

    /// The gesture after a release.
    pub open spec fn released(self) -> Self {
        Drag_drop_fling { is_dragging: false, ..self }
    }

    /// The vector that a release yields.
    pub open spec fn launch(self) -> Vec2<S> {
        self.current_position.spec_minus(self.start_position)
    }

    /// An idle gesture, with both points at the origin, whose coordinates
    /// are `zero`.
    pub fn new(zero: S) -> (gesture: Self)
        ensures
            !gesture.is_dragging,
            gesture.start_position == (Vec2 { x: zero, y: zero }),
            gesture.current_position == (Vec2 { x: zero, y: zero }),
    {
        Drag_drop_fling {
            is_dragging: false,
            start_position: Vec2 { x: zero, y: zero },
            current_position: Vec2 { x: zero, y: zero },
        }
    }

    /// The press: the drag begins at `start_position`, and is there so far.
    pub fn start_drag(&mut self, start_position: Vec2<S>)
        ensures
            *final(self) == Self::pressed(start_position),
    {
        self.is_dragging = true;
        self.start_position = start_position;
        self.current_position = start_position;
    }

    /// The move: a drag under way follows the pointer. Without one, nothing
    /// changes.
    pub fn update_drag(&mut self, current_position: Vec2<S>)
        ensures
            *final(self) == old(self).moved(current_position),
    {
        if self.is_dragging {
            self.current_position = current_position;
        }
    }

    /// The release: the drag ends, and the vector from where it began to
    /// where it got is returned. After a release, or before any press, the
    /// points are those of the last drag, or the origin, and the vector is
    /// taken between them all the same: it is for the caller to ask only
    /// after a press.
    pub fn end_drag(&mut self) -> (launch: Vec2<S>)
        requires
            old(self).current_position.x.sub_req(old(self).start_position.x),
            old(self).current_position.y.sub_req(old(self).start_position.y),
        ensures
            S::obeys_sub_spec() ==> launch == old(self).launch(),
            *final(self) == old(self).released(),
    {
        self.is_dragging = false;
        self.current_position.minus(self.start_position)
    }

    /// The preview line to draw: from the start of the drag to the pointer
    /// while a drag is under way, nothing otherwise.
    pub fn draw(&self) -> (line: Option<(Vec2<S>, Vec2<S>)>)
        ensures
            line == if self.is_dragging {
                Some((self.start_position, self.current_position))
            } else {
                None
            },
    {
        if self.is_dragging {
            Some((self.start_position, self.current_position))
        } else {
            None
        }
    }
}

/// A press at `from`, a move to `to` and a release yield the vector from
/// `from` to `to`, and leave the gesture idle.
pub proof fn drag_yields_difference<S: Scalar>(from: Vec2<S>, to: Vec2<S>)
    ensures
        Drag_drop_fling::pressed(from).moved(to).launch() == to.spec_minus(from),
        !Drag_drop_fling::pressed(from).moved(to).released().is_dragging,
{
}

/// A move without a drag under way changes nothing, whether no press came
/// yet or the last drag was released.
pub proof fn move_without_drag_is_ignored<S: Scalar>(gesture: Drag_drop_fling<S>, to: Vec2<S>)
    ensures
        !gesture.is_dragging ==> gesture.moved(to) == gesture,
        gesture.released().moved(to) == gesture.released(),
{
}

} // verus!
