//! Runtime core of a command-line chat client: token accounting, the
//! cancellable reply session, and the incremental terminal renderer.

pub mod client;
pub mod render;
pub mod utils;
