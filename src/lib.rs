//! Deterministic terrain generation for square chunks of an unbounded grid:
//! biome rules, the chunk coordinate grid that keeps neighbouring chunks
//! seamless, noise-variant selection and seeding, and the integer side of the
//! hydraulic erosion simulator (its random generator, its interior tests and
//! its erosion kernel).
pub mod biome;
pub mod config;
pub mod grid;
pub mod rng;
pub mod erosion;
