//! The plain OpenGL backend.

pub mod hook_opengl;
