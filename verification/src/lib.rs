//! A small immediate-mode 2D shape builder for a GPU renderer, together with
//! the pure decision logic of the surrounding window event loop.
//!
//! Coordinates are fixed-point: an `i64` counts micro-units, with
//! [`primitives::COORD_ONE`] micro-units to one drawing unit. This keeps the
//! geometry exact and lets every drawing operation state precisely which
//! vertices and indices it appends. The unverified application shell converts
//! micro-units to the GPU's native scalar format when it uploads buffers.

pub mod events;
pub mod numeric;
pub mod primitives;
pub mod render_state;
