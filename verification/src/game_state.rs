//! The whole scene: the balls, the planet, the figures, the drag gesture and
//! the camera, and what each event and each frame does to them.

use crate::ball::{frame_passed, Ball, BallPicture, Tuning};
use crate::drag_drop_fling::Drag_drop_fling;
use crate::npc::{Npc, Sprite, Turn};
use crate::planet::{size_fault, BodyError, Color, Planet};
use crate::vector::{well_behaved, Scalar, Vec2};
use vstd::prelude::*;
use vstd::std_specs::cmp::PartialOrdSpec;
use vstd::std_specs::ops::{AddSpec, DivSpec, MulSpec, SubSpec};

verus! {

/// A button of the mouse, as far as the scene tells buttons apart.
#[derive(Clone, Copy, Debug, PartialEq, Eq, Structural)]
pub enum MouseButton {
    Left,
    Right,
    Other,
}

/// A key, as far as the scene tells keys apart.
#[derive(Clone, Copy, Debug, PartialEq, Eq, Structural)]
pub enum Key {
    W,
    A,
    S,
    D,
    Other,
}

/// What the host reports between frames.
#[derive(Clone, Copy, Debug, PartialEq)]
pub enum Event<S> {
    /// The pointer moved by `delta` in the window, and is now at `position`
    /// in the scene.
    MouseMoved { position: Vec2<S>, delta: Vec2<S> },
    /// A button went down, with the pointer at `position` in the scene.
    MouseButtonPressed { button: MouseButton, position: Vec2<S> },
    /// A button came up.
    MouseButtonReleased { button: MouseButton },
    /// The wheel turned; `amount` is positive away from the user.
    MouseWheelMoved { amount: i32 },
    /// A key came up.
    KeyReleased { key: Key },
    /// Anything else.
    Other,
}

/// Which part of the scene is seen: the point at the centre of the window,
/// and the magnification along each axis.
#[derive(Clone, Copy, Debug, PartialEq)]
pub struct Camera<S> {
    pub position: Vec2<S>,
    pub scale: Vec2<S>,
}

/// The amounts by which the controls act.
#[derive(Clone, Copy, Debug, PartialEq)]
pub struct Controls<S> {
    /// The scalar zero.
    pub zero: S,
    /// The scalar one.
    pub one: S,
    /// How far one key press moves the camera.
    pub pan_step: S,
    /// The factor on the scale for one notch of the wheel away from the user.
    pub zoom_in: S,
    /// The factor on the scale for one notch of the wheel toward the user.
    pub zoom_out: S,
    /// The radius of a ball that a drag launches.
    pub ball_radius: S,
    /// The mass of a ball that a drag launches.
    pub ball_mass: S,
    /// The colour of a ball that a drag launches.
    pub ball_color: Color<S>,
}

/// The scene.
pub struct GameState<S> {
    pub balls: Vec<Ball<S>>,
    pub planet: Planet<S>,
    pub drag_drop_fling: Drag_drop_fling<S>,
    pub npcs: Vec<Npc<S>>,
    pub is_right_click: bool,
    pub camera: Camera<S>,
}

/// What to draw of the scene in one frame. The trails of the balls are drawn
/// first, then the planet, then the discs of the balls, then the figures;
/// the preview line of a drag goes between the balls and the figures.
pub struct Frame<S> {
    pub balls: Vec<BallPicture<S>>,
    pub planet: Planet<S>,
    pub preview: Option<(Vec2<S>, Vec2<S>)>,
    pub npcs: Vec<Sprite<S>>,
}

/// The visible ones among `balls`, in their order.
pub open spec fn visible_balls<S>(balls: Seq<Ball<S>>) -> Seq<Ball<S>>
    decreases balls.len(),
{
    if balls.len() == 0 {
        Seq::empty()
    } else if balls.last().is_visable {
        visible_balls(balls.drop_last()).push(balls.last())
    } else {
        visible_balls(balls.drop_last())
    }
}

/// `pictures` holds the picture of each of `balls`, in their order.
pub open spec fn pictures_of<S: Scalar>(balls: Seq<Ball<S>>, pictures: Seq<BallPicture<S>>) -> bool {
    &&& pictures.len() == balls.len()
    &&& forall|i: int| 0 <= i < balls.len() ==> (#[trigger] balls[i]).pictured(pictures[i])
}

/// `sprites` holds the sprite of each of `npcs`, in their order.
pub open spec fn sprites_of<S>(npcs: Seq<Npc<S>>, sprites: Seq<Sprite<S>>) -> bool {
    &&& sprites.len() == npcs.len()
    &&& forall|i: int|
        0 <= i < npcs.len() ==> #[trigger] sprites[i] == (Sprite {
            position: npcs[i].position,
            rotation: npcs[i].rotation,
        })
}

/// The camera after the pointer moved by `delta` with the right button held:
/// the scene follows the pointer, so the camera goes the other way, by the
/// move as it measures in the scene.
pub open spec fn camera_dragged<S: Scalar>(camera: Camera<S>, delta: Vec2<S>, one: S) -> Camera<S> {
    Camera {
        position: Vec2 {
            x: camera.position.x.sub_spec(delta.x.mul_spec(one.div_spec(camera.scale.x))),
            y: camera.position.y.sub_spec(delta.y.mul_spec(one.div_spec(camera.scale.y))),
        },
        scale: camera.scale,
    }
}

/// The camera after the wheel turned by `amount`.
pub open spec fn camera_zoomed<S: Scalar>(camera: Camera<S>, amount: i32, controls: Controls<S>) -> Camera<S> {
    if amount > 0 {
        Camera { position: camera.position, scale: camera.scale.spec_scaled(controls.zoom_in) }
    } else if amount < 0 {
        Camera { position: camera.position, scale: camera.scale.spec_scaled(controls.zoom_out) }
    } else {
        camera
    }
}

/// The camera after a key came up: W and S move it up and down, A and D
/// left and right, each by one step; y grows downward.
pub open spec fn camera_keyed<S: Scalar>(camera: Camera<S>, key: Key, step: S) -> Camera<S> {
    let at = camera.position;
    let position = match key {
        Key::W => Vec2 { x: at.x, y: at.y.sub_spec(step) },
        Key::A => Vec2 { x: at.x.sub_spec(step), y: at.y },
        Key::S => Vec2 { x: at.x, y: at.y.add_spec(step) },
        Key::D => Vec2 { x: at.x.add_spec(step), y: at.y },
        Key::Other => at,
    };
    Camera { position, scale: camera.scale }
}

/// The camera after an event, where `panning` says whether the right button
/// was held.
pub open spec fn camera_after<S: Scalar>(
    camera: Camera<S>,
    panning: bool,
    event: Event<S>,
    controls: Controls<S>,
) -> Camera<S> {
    match event {
        Event::MouseMoved { position, delta } => if panning {
            camera_dragged(camera, delta, controls.one)
        } else {
            camera
        },
        Event::MouseWheelMoved { amount } => camera_zoomed(camera, amount, controls),
        Event::KeyReleased { key } => camera_keyed(camera, key, controls.pan_step),
        _ => camera,
    }
}

/// Whether the right button is held after an event.
pub open spec fn panning_after<S>(panning: bool, event: Event<S>) -> bool {
    match event {
        Event::MouseButtonPressed { button: MouseButton::Right, .. } => true,
        Event::MouseButtonReleased { button: MouseButton::Right } => false,
        _ => panning,
    }
}

/// The gesture after an event: the left button starts and ends a drag, and a
/// drag under way follows the pointer.
pub open spec fn gesture_after<S: Scalar>(gesture: Drag_drop_fling<S>, event: Event<S>) -> Drag_drop_fling<S> {
    match event {
        Event::MouseMoved { position, .. } => gesture.moved(position),
        Event::MouseButtonPressed { button: MouseButton::Left, position } => Drag_drop_fling::pressed(
            position,
        ),
        Event::MouseButtonReleased { button: MouseButton::Left } => gesture.released(),
        _ => gesture,
    }
}

/// The event launches a ball: the left button came up.
pub open spec fn launches<S>(event: Event<S>) -> bool {
    event matches Event::MouseButtonReleased { button: MouseButton::Left }
}

/// `after` is `before` with one more ball at its end, new and with the given
/// motion and size.
pub open spec fn one_more_ball<S: Scalar>(
    before: Seq<Ball<S>>,
    after: Seq<Ball<S>>,
    position: Vec2<S>,
    velocity: Vec2<S>,
    radius: S,
    mass: S,
    color: Color<S>,
) -> bool {
    &&& after.len() == before.len() + 1
    &&& after == before.push(after.last())
    &&& after.last().is_fresh(position, velocity, radius, mass, color)
}

impl<S: Scalar> GameState<S> {
    /// A scene with one ball, the planet and the figures, seen through
    /// `camera`, with no drag under way and no button held.
    pub fn new(ball: Ball<S>, planet: Planet<S>, npcs: Vec<Npc<S>>, camera: Camera<S>, zero: S) -> (state:
        GameState<S>)
        ensures
            state.balls@ == seq![ball],
            state.planet == planet,
            state.npcs == npcs,
            state.camera == camera,
            !state.is_right_click,
            state.drag_drop_fling == (Drag_drop_fling {
                start_position: Vec2 { x: zero, y: zero },
                current_position: Vec2 { x: zero, y: zero },
                is_dragging: false,
            }),
    {
        let mut balls: Vec<Ball<S>> = Vec::new();
        balls.push(ball);
        GameState {
            balls,
            planet,
            drag_drop_fling: Drag_drop_fling::new(zero),
            npcs,
            is_right_click: false,
            camera,
        }
    }

    /// `self` is `before` but for its balls.
    pub open spec fn same_but_balls(&self, before: &GameState<S>) -> bool {
        &&& self.planet == before.planet
        &&& self.drag_drop_fling == before.drag_drop_fling
        &&& self.npcs == before.npcs
        &&& self.is_right_click == before.is_right_click
        &&& self.camera == before.camera
    }

    /// Adds a new ball behind the others, or reports the fault in its size
    /// and leaves the scene as it is.
    pub fn spawn_ball(
        &mut self,
        position: Vec2<S>,
        velocity: Vec2<S>,
        radius: S,
        mass: S,
        color: Color<S>,
        zero: S,
    ) -> (outcome: Result<(), BodyError>)
        ensures
            final(self).same_but_balls(old(self)),
            outcome is Err ==> final(self).balls == old(self).balls,
            outcome is Ok ==> one_more_ball(
                old(self).balls@,
                final(self).balls@,
                position,
                velocity,
                radius,
                mass,
                color,
            ),
            S::obeys_partial_cmp_spec() ==> match size_fault(radius, mass, zero) {
                Some(fault) => outcome == Err::<(), BodyError>(fault),
                None => outcome is Ok,
            },
    {
        match Ball::new(position, velocity, radius, mass, color, zero) {
            Err(fault) => Err(fault),
            Ok(new_ball) => {
                self.balls.push(new_ball);
                assert(self.balls@ =~= old(self).balls@.push(self.balls@.last()));
                Ok(())
            },
        }
    }

    /// Takes one event. The left button drags and, on release, launches a
    /// ball from where the drag began, with the dragged vector as its
    /// velocity. The right button held makes the camera follow the pointer,
    /// the wheel zooms, and W, A, S and D move the camera. The only failure
    /// is a launch with a radius or a mass in `controls` that is not greater
    /// than zero: no ball is added then, and the drag has ended all the same.
    pub fn event(&mut self, event: Event<S>, controls: &Controls<S>) -> (outcome: Result<(), BodyError>)
        requires
            well_behaved::<S>(),
        ensures
            final(self).planet == old(self).planet,
            final(self).npcs == old(self).npcs,
            final(self).camera == camera_after(
                old(self).camera,
                old(self).is_right_click,
                event,
                *controls,
            ),
            final(self).is_right_click == panning_after(old(self).is_right_click, event),
            final(self).drag_drop_fling == gesture_after(old(self).drag_drop_fling, event),
            !launches(event) ==> outcome is Ok && final(self).balls == old(self).balls,
            launches(event) ==> match size_fault(
                controls.ball_radius,
                controls.ball_mass,
                controls.zero,
            ) {
                Some(fault) => outcome == Err::<(), BodyError>(fault) && final(self).balls == old(
                    self,
                ).balls,
                None => outcome is Ok && one_more_ball(
                    old(self).balls@,
                    final(self).balls@,
                    old(self).drag_drop_fling.start_position,
                    old(self).drag_drop_fling.launch(),
                    controls.ball_radius,
                    controls.ball_mass,
                    controls.ball_color,
                ),
            },
    {
        match event {
            Event::MouseMoved { position, delta } => {
                self.drag_drop_fling.update_drag(position);
                if self.is_right_click {
                    let along_x = delta.x * (controls.one / self.camera.scale.x);
                    let along_y = delta.y * (controls.one / self.camera.scale.y);
                    self.camera.position = Vec2 {
                        x: self.camera.position.x - along_x,
                        y: self.camera.position.y - along_y,
                    };
                }
                Ok(())
            },
            Event::MouseButtonReleased { button } => {
                match button {
                    MouseButton::Left => {
                        let velocity = self.drag_drop_fling.end_drag();
                        let start = self.drag_drop_fling.start_position;
                        self.spawn_ball(
                            start,
                            velocity,
                            controls.ball_radius,
                            controls.ball_mass,
                            controls.ball_color,
                            controls.zero,
                        )
                    },
                    MouseButton::Right => {
                        self.is_right_click = false;
                        Ok(())
                    },
                    _ => Ok(()),
                }
            },
            Event::MouseWheelMoved { amount } => {
                if amount > 0 {
                    self.camera.scale = self.camera.scale.scaled(controls.zoom_in);
                } else if amount < 0 {
                    self.camera.scale = self.camera.scale.scaled(controls.zoom_out);
                }
                Ok(())
            },
            Event::MouseButtonPressed { button, position } => {
                match button {
                    MouseButton::Left => {
                        self.drag_drop_fling.start_drag(position);
                    },
                    MouseButton::Right => {
                        self.is_right_click = true;
                    },
                    _ => {},
                }
                Ok(())
            },
            Event::KeyReleased { key } => {
                match key {
                    Key::W => {
                        self.camera.position.y = self.camera.position.y - controls.pan_step;
                    },
                    Key::A => {
                        self.camera.position.x = self.camera.position.x - controls.pan_step;
                    },
                    Key::S => {
                        self.camera.position.y = self.camera.position.y + controls.pan_step;
                    },
                    Key::D => {
                        self.camera.position.x = self.camera.position.x + controls.pan_step;
                    },
                    Key::Other => {},
                }
                Ok(())
            },
            Event::Other => Ok(()),
        }
    }
}

impl<S: Scalar> GameState<S> {
    /// Advances the scene by one frame of `delta_time`: every ball by its
    /// own frame against the planet, then every figure by one tick. `root`
    /// is the square root and `heading` the direction of an angle;
    /// `fresh_targets` holds, for each figure, the angle it turns to next if
    /// it reaches its target in this tick.
    pub fn update<F: Fn(S) -> S, H: Fn(S) -> Vec2<S>>(
        &mut self,
        delta_time: S,
        tuning: &Tuning<S>,
        root: &F,
        turn: &Turn<S>,
        fresh_targets: &Vec<S>,
        heading: &H,
    )
        requires
            well_behaved::<S>(),
            forall|squared: S| call_requires(*root, (squared,)),
            forall|angle: S| call_requires(*heading, (angle,)),
            fresh_targets@.len() == old(self).npcs@.len(),
        ensures
            final(self).planet == old(self).planet,
            final(self).drag_drop_fling == old(self).drag_drop_fling,
            final(self).is_right_click == old(self).is_right_click,
            final(self).camera == old(self).camera,
            final(self).balls@.len() == old(self).balls@.len(),
            forall|i: int|
                0 <= i < old(self).balls@.len() ==> frame_passed(
                    &old(self).balls@[i],
                    &#[trigger] final(self).balls@[i],
                    delta_time,
                    old(self).planet,
                    *tuning,
                    root,
                ),
            final(self).npcs@.len() == old(self).npcs@.len(),
            forall|i: int|
                0 <= i < old(self).npcs@.len() ==> (#[trigger] final(self).npcs@[i]).updated(
                    &old(self).npcs@[i],
                    *turn,
                    fresh_targets@[i],
                    heading,
                ),
    {
        let planet = self.planet;
        let ball_count: usize = self.balls.len();
        let mut i: usize = 0;
        while i < ball_count
            invariant
                well_behaved::<S>(),
                forall|squared: S| call_requires(*root, (squared,)),
                i <= ball_count,
                ball_count == old(self).balls@.len(),
                self.balls@.len() == ball_count,
                planet == old(self).planet,
                self.planet == old(self).planet,
                self.drag_drop_fling == old(self).drag_drop_fling,
                self.is_right_click == old(self).is_right_click,
                self.camera == old(self).camera,
                self.npcs == old(self).npcs,
                forall|j: int|
                    0 <= j < i ==> frame_passed(
                        &old(self).balls@[j],
                        &#[trigger] self.balls@[j],
                        delta_time,
                        planet,
                        *tuning,
                        root,
                    ),
                forall|j: int| i <= j < ball_count ==> #[trigger] self.balls@[j] == old(self).balls@[j],
            decreases ball_count - i,
        {
            self.balls[i].update(delta_time, &planet, tuning, root);
            i = i + 1;
        }
        let npc_count: usize = self.npcs.len();
        let mut k: usize = 0;
        while k < npc_count
            invariant
                well_behaved::<S>(),
                forall|angle: S| call_requires(*heading, (angle,)),
                k <= npc_count,
                npc_count == old(self).npcs@.len(),
                self.npcs@.len() == npc_count,
                fresh_targets@.len() == npc_count,
                self.planet == old(self).planet,
                self.drag_drop_fling == old(self).drag_drop_fling,
                self.is_right_click == old(self).is_right_click,
                self.camera == old(self).camera,
                self.balls@.len() == old(self).balls@.len(),
                forall|j: int|
                    0 <= j < self.balls@.len() ==> frame_passed(
                        &old(self).balls@[j],
                        &#[trigger] self.balls@[j],
                        delta_time,
                        old(self).planet,
                        *tuning,
                        root,
                    ),
                forall|j: int|
                    0 <= j < k ==> (#[trigger] self.npcs@[j]).updated(
                        &old(self).npcs@[j],
                        *turn,
                        fresh_targets@[j],
                        heading,
                    ),
                forall|j: int| k <= j < npc_count ==> #[trigger] self.npcs@[j] == old(self).npcs@[j],
            decreases npc_count - k,
        {
            self.npcs[k].update(turn, fresh_targets[k], heading);
            k = k + 1;
        }
    }
}

impl<S: Scalar> GameState<S> {
    /// What to draw of the scene: the picture of every visible ball, the
    /// planet, the preview line while a drag is under way, and the sprite of
    /// every figure. Hidden balls are left out.
    pub fn draw(&self) -> (frame: Frame<S>)
        ensures
            pictures_of(visible_balls(self.balls@), frame.balls@),
            frame.planet == self.planet,
            frame.preview == if self.drag_drop_fling.is_dragging {
                Some((self.drag_drop_fling.start_position, self.drag_drop_fling.current_position))
            } else {
                None
            },
            sprites_of(self.npcs@, frame.npcs@),
    {
        let mut balls: Vec<BallPicture<S>> = Vec::new();
        let mut i: usize = 0;
        while i < self.balls.len()
            invariant
                i <= self.balls@.len(),
                pictures_of(visible_balls(self.balls@.subrange(0, i as int)), balls@),
            decreases self.balls@.len() - i,
        {
            let ghost seen = visible_balls(self.balls@.subrange(0, i as int));
            proof {
                assert(self.balls@.subrange(0, i + 1).drop_last() =~= self.balls@.subrange(
                    0,
                    i as int,
                ));
            }
            match self.balls[i].draw() {
                Some(picture) => {
                    balls.push(picture);
                    assert(visible_balls(self.balls@.subrange(0, i + 1)) == seen.push(
                        self.balls@[i as int],
                    ));
                },
                None => {},
            }
            i = i + 1;
        }
        assert(self.balls@.subrange(0, i as int) =~= self.balls@);
        let mut npcs: Vec<Sprite<S>> = Vec::new();
        let mut k: usize = 0;
        while k < self.npcs.len()
            invariant
                k <= self.npcs@.len(),
                sprites_of(self.npcs@.subrange(0, k as int), npcs@),
            decreases self.npcs@.len() - k,
        {
            npcs.push(self.npcs[k].draw());
            k = k + 1;
        }
        assert(self.npcs@.subrange(0, k as int) =~= self.npcs@);
        Frame { balls, planet: self.planet, preview: self.drag_drop_fling.draw(), npcs }
    }
}

} // verus!
