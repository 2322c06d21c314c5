//! Movement, collision and camera-tracking core of a tile-grid 2D game.
//!
//! The library converts between tile-grid coordinates and continuous world
//! coordinates, classifies grid cells by terrain type, resolves player
//! movement requests against that classification, and keeps a viewport
//! camera clamped inside the playable world while tracking the player.
//!
//! World coordinates are fixed-point integers: the caller picks a sub-unit
//! scale (so many sub-units per pixel) and states every quantity — positions,
//! cell size, viewport extents, movement steps — in that one scale. All
//! arithmetic is then exact, and every rounding rule below is stated and
//! proved over the integers.

pub mod camera;
pub mod geometry;
pub mod key;
pub mod player;
mod text;
pub mod tilemap;
