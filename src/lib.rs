//! Simulation core of a small tile-based platformer: a fixed-timestep
//! scheduler, a player motion state machine, and axis-separated collision
//! against a grid of tiles.
//!
//! All quantities are integers. Positions are held in nanopixels, speeds in
//! nanopixels per second and times in nanoseconds, so that every tick of the
//! simulation is exact and deterministic.

pub mod editor;
pub mod game;
pub mod geom;
pub mod keys;
pub mod laws;
pub mod model;
pub mod motion;
pub mod room;
