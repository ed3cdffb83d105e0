//! What the core decides about Win32 handles and window procedures.

pub mod handle;
pub mod wndproc;
