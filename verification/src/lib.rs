//! Geometry for a hexagonal tile world.
//!
//! `hex` models an axial/cube coordinate on an infinite hex grid, with
//! direction-based neighbor navigation. `geometry` assembles the index
//! buffers that turn rings of hexagon corner points into triangle-list
//! meshes for a flat tile face and a beveled hexagonal prism.

pub mod geometry;
pub mod hex;
