//! Core simulation logic for a small prototype game: a camera, a player
//! sprite, a tower, and timer-driven projectile lifetimes. The surrounding
//! engine (rendering, windowing, asset loading, input polling) is an external
//! collaborator; this crate holds the state machines, timers, entity
//! bookkeeping and per-frame behaviors that the engine's schedule drives, as
//! plain data with verified transition functions.

pub mod lifetime;
pub mod player;
pub mod sprites;
pub mod states;
pub mod timer;
pub mod tower;
pub mod world;
