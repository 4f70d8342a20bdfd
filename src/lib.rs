//! A 2D tile world: grid/world coordinates, a sparse tile map edited through
//! a cursor, and a frame-locked actor integrator with friction and gravity.
//!
//! World positions are fixed-point integers measured in hundredths of a pixel,
//! so every rule below is exact integer arithmetic.
pub mod grid;
pub mod tile_map;
pub mod player;
pub mod gravity;
pub mod cursor;
pub mod camera;
pub mod world;
