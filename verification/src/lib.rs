//! In-process overlay core: hook-chain dispatch, the framed command
//! protocol spoken with the overlay producer, and the shared-texture
//! synchronizer state machines that the graphics hooks drive.

pub mod common;
pub mod d3d11;
pub mod hook;
pub mod imgui_renderer_dx11;
pub mod imgui_renderer_ogl;
pub mod ipc;
pub mod kernel;
pub mod opengl;
pub mod vk;
pub mod wgl;
pub mod win32;
