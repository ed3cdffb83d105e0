//! The Vulkan layer.

pub mod hook_vk;
pub mod sys;
