//! Types that every backend shares.

use crate::ipc::cmd::{
    i32_of_bits, GameWindowCommand, GameWindowCommandParams, GameWindowCommandType,
    GameWindowMagic, WindowResizeEventParams,
};
use vstd::prelude::*;

verus! {

/// The extent of a surface in pixels.
#[derive(PartialEq, Eq, Copy, Clone, Debug, Structural)]
pub struct Dimensions {
    pub width: u32,
    pub height: u32,
}

impl Dimensions {
    pub fn new(width: u32, height: u32) -> (dimensions: Dimensions)
        ensures
            dimensions == (Dimensions { width, height }),
    {
        Dimensions { width, height }
    }
}

/// The window that shows the overlay texture: as large as the texture,
/// in the top left corner, without padding, border, decoration or
/// background, neither movable nor resizable.
#[derive(PartialEq, Eq, Copy, Clone, Debug, Structural)]
pub struct OverlayWindow {
    pub texture: usize,
    pub size: Dimensions,
}

impl OverlayWindow {
    /// The overlay window for a texture of the given extent.
    pub fn new(texture: usize, size: Dimensions) -> (window: OverlayWindow)
        ensures
            window == (OverlayWindow { texture, size }),
    {
        OverlayWindow { texture, size }
    }
}

/// Why the OpenGL renderer gave up.
#[derive(PartialEq, Eq, Copy, Clone, Debug)]
pub enum OpenGLRenderError {
    /// A shader of the given kind did not compile with the given `#version` line.
    CompileError(u32, &'static str),
    LinkError,
    MissingExtensionError(&'static str),
}

/// Why the Direct3D 11 renderer gave up.
#[derive(PartialEq, Eq, Copy, Clone, Debug, Structural)]
pub enum Direct3D11RenderError {
    /// A call failed with the given `HRESULT`.
    DirectXError(i32),
    ContextInitError,
}

/// Why a frame went without overlay. None of these stops the host's own
/// frame from being presented.
#[derive(PartialEq, Eq, Debug)]
pub enum RenderError {
    /// The command channel took no more commands.
    IpcError,
    OpenGLInternalError(OpenGLRenderError),
    Direct3D11InternalError(Direct3D11RenderError),
    /// A DXGI call failed with the given `HRESULT`.
    DXGIInternalError(i32),
    RendererNotReady,
    /// The shared handle could not be opened; with it the `HRESULT`.
    OverlayHandleError(usize, i32),
    OverlayHandleNotReady,
    OverlayMutexNotReady,
    OverlayPaintNotReady(Box<RenderError>),
    ImGuiNotReady(Box<RenderError>),
    KernelNotReady,
}

/// How far the synchronizer has come.
#[derive(PartialEq, Eq, Copy, Clone, Debug, Structural)]
pub enum OverlayPhase {
    /// No shared handle has arrived.
    Uninitialized,
    /// A shared handle is owned and waits to be opened.
    HandleReceived,
    /// The shared texture is opened and can be painted.
    Imported,
}

/// The request to duplicate a handle out of the process that owns it.
#[derive(PartialEq, Eq, Copy, Clone, Debug, Structural)]
pub struct DuplicateRequest {
    pub source_pid: u32,
    pub handle: usize,
}

/// What is left to do for a refresh.
#[derive(PartialEq, Eq, Copy, Clone, Debug, Structural)]
pub enum RefreshStep {
    /// Nothing: the new handle is in place.
    Done,
    /// Close this handle, the duplicate owned so far, and report the
    /// outcome with `finish_refresh`.
    Close(usize),
}

/// The acquisition of the keyed mutex that guards every read of the
/// shared texture.
#[derive(PartialEq, Eq, Copy, Clone, Debug, Structural)]
pub struct SyncRequest {
    pub key: u64,
    pub timeout_ms: u32,
}

/// The command that asks the producer to render at `size`.
pub open spec fn resize_command(size: Dimensions) -> GameWindowCommand {
    GameWindowCommand {
        magic: GameWindowMagic(GameWindowMagic::MAGIC),
        ty: GameWindowCommandType(GameWindowCommandType::WINDOW_RESIZE),
        params: GameWindowCommandParams::ResizeEvent(
            WindowResizeEventParams {
                height: i32_of_bits(size.height as nat),
                width: i32_of_bits(size.width as nat),
            },
        ),
    }
}

} // verus!
