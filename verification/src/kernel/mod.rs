//! What all frame kernels share, and the life cycle of the one channel
//! that serves them.

pub mod common;
pub mod global;
