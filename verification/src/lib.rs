//! dirty: a toolkit for games and other interactive programs.
//!
//! This crate holds the parts of the toolkit whose behaviour is stated and
//! proved:
//!
//! - `http`: request building, parsing and serialising, and the HTTP
//!   vocabulary (schemes, methods, versions, content types, statuses);
//! - `task`: tasks that run work elsewhere, and a pool that runs at most a
//!   fixed number of them in the order they were queued;
//! - `buttons`, `modules::input`, `modules::window`, `events`: per-frame
//!   key and button states, and the reaction to platform events;
//! - `modules::gfx`, `gfx`, `batch`: the drawing state stack, quad and
//!   mesh batching, bitmap-font layout, and quad corner order;
//! - `gl`, `utils::gl`: graphics-API settings and error codes, and the
//!   index layout of batched quads;
//! - `gfx::shapes`, `geom::meshgen`, `mesh`: the triangle layouts of
//!   filled shapes and generated meshes;
//! - `fs`, `path`, `kit`, `audio`: file names, a text field's state, and
//!   the order of decoded audio samples.

pub mod err;
pub mod text;
pub mod http;
pub mod task;
pub mod buttons;
pub mod modules;
pub mod events;
pub mod gl;
pub mod batch;
pub mod gfx;
pub mod geom;
pub mod path;
pub mod fs;
pub mod kit;
pub mod audio;
pub mod utils;
pub mod mesh;
pub mod web;

pub use crate::err::Error;
pub use crate::err::Result;
