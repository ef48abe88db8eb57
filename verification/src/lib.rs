//! Core of a tile-based 2D platformer: tile grid with serialization,
//! software pixel compositor, camera transform, collision queries,
//! entity motion and combat resolution.
//!
//! Coordinates in game space are fixed-point numbers (`Fx`) measured in
//! tile units; screen space uses `i32` pixel coordinates.

use vstd::prelude::*;

pub mod bitmap;
pub mod bytes;
pub mod camera;
pub mod collision;
pub mod color;
pub mod combat;
pub mod entity;
pub mod fx;
pub mod file;
pub mod game;
pub mod geom;
pub mod image;
pub mod input;
pub mod render;
pub mod text;
pub mod tile;
pub mod tilemap;
pub mod utils;

verus! {

} // verus!
