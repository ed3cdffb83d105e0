//! The WGL (OpenGL on Windows) backend.

pub mod hook_wgl;
pub mod imgui_wgl;
pub mod kernel_wgl;
pub mod overlay_wgl;
