//! The Direct3D 11 backend.

pub mod hook_d3d11;
pub mod imgui_d3d11;
pub mod kernel_d3d11;
pub mod overlay_d3d11;
