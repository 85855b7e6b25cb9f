//! Context-driven modules: window, input and drawing state.

pub mod input;
pub mod window;
pub mod gfx;
