//! Chunked storage for a hexagonal-grid voxel world.
//!
//! Global hex columns ("pillars") are addressed by axial coordinates. They
//! are grouped into square chunks of `CHUNK_SIZE × CHUNK_SIZE` pillars, and a
//! `World` holds a sparse set of loaded chunks keyed by their chunk index.
pub mod math;
pub mod ground;
pub mod chunk;
pub mod world;
