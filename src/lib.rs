//! Top-down silhouettes of brick scenes: integer footprint meshes, mitred
//! outline descriptions, scene preparation and the height-bucket index over
//! the vertex stream.

pub mod primitives;
pub mod brick;
pub mod shapes;
pub mod assets;
pub mod order;
pub mod prepare;
pub mod layout;
pub mod centroid;
pub mod render;
