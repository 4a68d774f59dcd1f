//! Procedural noise generation: deterministic pseudo-random scalar field
//! generators built on a permutation table, gradient hashing and simplex
//! lattice traversal.
//!
//! The integer heart of each generator lives here, fully verified: the
//! 512-entry permutation table and its duplication invariant, lattice index
//! wrapping, chained corner hashing, gradient direction decoding and the
//! simplex corner-ordering rules. Floating-point evaluation layers sit on
//! top of these primitives.

pub mod checkerboard;
pub mod entropy;
pub mod grad;
pub mod improved_perlin;
pub mod perlin;
pub mod simplex;
pub mod table;

pub use checkerboard::Checkerboard;
pub use improved_perlin::ImprovedPerlin;
pub use perlin::Perlin;
pub use simplex::Simplex;
