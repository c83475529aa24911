//! Verified core of a neural appearance baker: camera sampling on a sphere,
//! a multi-resolution hash-grid encoder, a small neural field, the
//! raster/compute interop protocol, and the training loop that ties them.

pub mod bake;
pub mod bridge;
pub mod error;
pub mod graphics;
pub mod handle_queue;
pub mod hash_grid;
pub mod input;
pub mod kernel_args;
pub mod maths;
pub mod neural_field;
pub mod resources;
pub mod sampling;
pub mod system;
