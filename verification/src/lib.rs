//! Entity-simulation core of a 2D arcade space shooter: the game objects
//! (ship, asteroids, saucers, explosions, debris), their per-frame physics,
//! collision detection, and spawn/despawn rules. All quantities are held in
//! fixed-point milli-units; rendering and input wiring live with the host.

mod clock;
mod rng;

pub mod draw;
pub mod explosion;
pub mod interval;
pub mod laser;
pub mod potatoid;
pub mod ship;
pub mod sprite;
pub mod sprite_manager;
pub mod text;
pub mod trig;
pub mod ufo;
pub mod vector;
