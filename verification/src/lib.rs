//! Heightmap terrain: turns a 16-bit elevation raster into an indexed
//! triangle mesh, in exact integer arithmetic.
//!
//! A raster of `width` by `height` cells gives a lattice of
//! `(width + 1) * (height + 1)` corners. Each corner becomes a vertex whose
//! height is the mean of the cells around it; each cell becomes two
//! triangles. Heights and texture coordinates are kept as fractions, so
//! that no rounding happens here: the caller divides.
//!
//! - [`raster`]: the decoded raster and its validation.
//! - [`geometry`]: what the mesh of a raster is, and what holds of it.
//! - [`terrain`]: sampling corners and building the mesh.
//! - [`terrain_common`]: load options, mesh style and the two prepared meshes.
//! - [`regeneration`]: when a full regeneration is due and when the style
//!   alone changes.
//! - [`error`]: why a terrain could not be produced.

pub mod error;
pub mod geometry;
pub mod raster;
pub mod regeneration;
pub mod terrain;
pub mod terrain_common;
