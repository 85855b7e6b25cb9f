//! Helpers for the fixed-function graphics backend.

pub mod gl;
