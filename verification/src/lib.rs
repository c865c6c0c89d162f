//! Streaming voxel terrain: which chunks surround a viewer, the grid of density
//! samples of one chunk, and the marching-cubes walk that turns a grid into
//! triangles.
//!
//! Densities are carried as IEEE-754 binary32 bit patterns, so that every
//! decision the library takes on them (the sign test, the running bounds) is
//! exact integer reasoning.

pub mod map_generator;
pub mod settings;
pub mod utils;
