//! Voxel-world data model: chunked block storage, coordinate spaces and the
//! catalog of block kinds, together with the errors of bringing up the
//! graphics backend that draws the world.

pub mod render;
pub mod world;
