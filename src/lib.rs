//! Deterministic terrain height synthesis from a textual seed.
//!
//! The verified library holds the seed derivation, the integer draws from the
//! seeded generator, and the index arithmetic that lays a height grid out.
pub mod grid;
pub mod laws;
pub mod rand_box;

pub use grid::{sample_index, terrain_sample_indices};
pub use laws::DrawRequest;
pub use rand_box::{DrawError, RandBox};
