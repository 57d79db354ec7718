//! Gameplay core of a side-scrolling avoidance game: a gravity-bound player
//! must pass through gaps in an endless, recycled procession of paired
//! obstacles ("pipe pairs") that scroll leftward at constant velocity.
//!
//! The core covers obstacle-pair generation and recycling, a narrowed
//! collision scope around the pair the player is approaching, pass-through
//! scoring, and the running / game-over / restart life cycle. Position
//! integration, exact collision tests, rendering and input plumbing are
//! external collaborators: the driver advances bodies with [`game::FlappyBird::integrate`],
//! asks a narrowphase for the collision graph over
//! [`game::FlappyBird::collision_candidates`], and hands that graph to
//! [`game::FlappyBird::update`].
//!
//! All coordinates are integers: positions in world units, accelerations in
//! world units per tick squared, velocities in world units per tick.

pub mod body;
pub mod config;
pub mod game;
pub mod lifecycle;
pub mod pipes;
pub mod ring;
pub mod text;
mod rng;
