//! Mesh generation.

pub mod meshgen;
