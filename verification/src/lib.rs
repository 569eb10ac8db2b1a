//! Geometry core of a terminal voxel renderer: exact integer vector math,
//! voxel grid indexing, cube mesh generation, and the point-in-triangle
//! containment test used for rasterization.

pub mod index;
pub mod mesh;
pub mod raster;
pub mod screen;
pub mod vector;
pub mod voxel;
