//! The simulation core of a small arcade game of survival: a player dodges
//! lasers that appear around it and fly at it, while a time scale slows the
//! game down or speeds it up with the player's input.
//!
//! The core is made of three parts. `collisions` holds the geometry: the
//! orientation of point triplets and the intersection of a segment with a
//! segment and with a rectangle. `components` and `resources` hold the state
//! of the entities and of the world. `systems` holds the rules that move the
//! state on by one tick: the time scale, the player's velocity, the spawning
//! of lasers, the motion of all entities, and the removal of lasers that hit
//! the player or strayed too far. A tick runs the systems in that order, so
//! a laser moves and is tested for a collision in the tick that spawned it.
//!
//! All numbers are 16.16 fixed-point numbers (see `vector`), and all results
//! are exact functions of the inputs (see `fixed`): the same inputs give the
//! same game on every machine. Chance, clocks, input devices and the storage
//! of entities are left to the caller, who hands in what they yield.

pub mod collisions;
pub mod components;
pub mod fixed;
pub mod resources;
pub mod systems;
pub mod util;
pub mod vector;
