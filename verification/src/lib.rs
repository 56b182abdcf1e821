//! The rules of a small orbital toy: balls flung by a drag gesture into the
//! gravity well of one planet, the bounce when a ball touches the planet, the
//! bounded trail each ball leaves, the figures that walk around the planet,
//! and the camera through which all of it is seen.
//!
//! The library is generic over the number type, so that a host can run it on
//! whatever scalars its graphics layer uses. Every result is stated in terms
//! of that type's own operators. What no operator gives, the host hands in:
//! the square root, the direction of an angle, and the random angles that
//! the figures walk toward. The host also does the drawing; the library says
//! what is to be drawn.
//!
//! `exact` holds what is true of gravity, of the bounce and of the walk where
//! the scalar's arithmetic is exact. `whole` holds a scalar on which every
//! function of the library can be called, and `whole_ring` the proof that
//! its sums, differences and products are exact.

pub mod ball;
pub mod drag_drop_fling;
pub mod exact;
pub mod game_state;
pub mod npc;
pub mod planet;
pub mod trail;
pub mod vector;
pub mod whole;
pub mod whole_ring;
