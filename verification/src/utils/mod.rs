//! Text helpers shared by the client and the renderer.

pub mod abort_signal;
pub mod number;
pub mod text;
pub mod tokens;
pub mod width;
