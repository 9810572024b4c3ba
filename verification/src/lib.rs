//! Combat and collision-resolution core of a 2D action-adventure game.
//!
//! The surrounding engine (rendering, asset loading, physics broad-phase,
//! input devices) is an external collaborator: it hands this library plain
//! values (contact pairs, elapsed milliseconds, trigger flags) and carries
//! out the actions the library decides on (spawn, despawn, velocity change,
//! particle and audio requests).

pub mod actor;
pub mod clamped;
pub mod collisions;
pub mod constants;
pub mod debug;
pub mod enemy;
pub mod events;
pub mod geom;
pub mod magic;
pub mod particles;
pub mod player;
mod rng;
pub mod session;
pub mod settings;
pub mod stats;
pub mod timer;
pub mod weapon;
pub mod world;
