//! The frame kernel of the WGL backend: what happens inside one call of
//! `wglSwapBuffers` before the call goes on down its chain.
//!
//! The kernel asks for one thing at a time and is told how it went. It
//! never fails the host's frame: whatever goes wrong ends in a `Finish`
//! with the reason, after which the caller advances the hook chain.

use crate::common::{
    resize_command, Dimensions, DuplicateRequest, OpenGLRenderError, OverlayWindow, RefreshStep,
    RenderError, SyncRequest,
};
use crate::hook::{has_key, HookError, HookHandle};
use crate::kernel::common::FrameKernel;
use crate::ipc::cmd::{
    i32_bits, GameWindowCommand, GameWindowCommandParams, GameWindowCommandType,
    OverlayTextureEventParams, Size,
};
use crate::wgl::hook_wgl::{WGLHookContext, WGLHookHandle};
use crate::wgl::imgui_wgl::{ControllerState, WGLImguiController};
use crate::wgl::overlay_wgl::{
    GlSharedTexture, ImportRequest, KeyedMutexHandle, OverlayState, PaintPlan, WGLOverlay,
};
use crate::win32::handle::HandleError;
use crate::win32::wndproc::WndProcHandle;
use std::mem::ManuallyDrop;
use vstd::prelude::*;

verus! {

/// The window of a device context with its client rectangle, and whether
/// the OpenGL context has the extensions that sharing memory needs.
#[derive(PartialEq, Eq, Copy, Clone, Debug, Structural)]
pub struct ClientArea {
    pub window: usize,
    pub left: i32,
    pub top: i32,
    pub right: i32,
    pub bottom: i32,
    pub extensions_loaded: bool,
}

/// The distance between two coordinates.
pub open spec fn spec_abs_diff(a: i32, b: i32) -> u32 {
    if a >= b {
        (a - b) as u32
    } else {
        (b - a) as u32
    }
}

/// The distance between two coordinates.
pub fn abs_diff(a: i32, b: i32) -> (distance: u32)
    ensures
        distance == spec_abs_diff(a, b),
{
    if a >= b {
        (a as i64 - b as i64) as u32
    } else {
        (b as i64 - a as i64) as u32
    }
}

impl ClientArea {
    /// The extent of the client rectangle.
    pub open spec fn spec_size(self) -> Dimensions {
        Dimensions {
            width: spec_abs_diff(self.right, self.left),
            height: spec_abs_diff(self.bottom, self.top),
        }
    }

    /// The extent of the client rectangle.
    #[verifier::when_used_as_spec(spec_size)]
    pub fn size(self) -> (size: Dimensions)
        ensures
            size == self.spec_size(),
    {
        Dimensions {
            width: abs_diff(self.right, self.left),
            height: abs_diff(self.bottom, self.top),
        }
    }
}

/// What a frame has found out about its surface.
#[derive(PartialEq, Eq, Copy, Clone, Debug, Structural)]
pub struct Surface {
    pub size: Dimensions,
    pub window: usize,
    pub extensions_loaded: bool,
}

/// Where the work of a frame stands.
#[derive(PartialEq, Eq, Copy, Clone, Debug, Structural)]
pub enum SwapPhase {
    /// Between frames.
    Idle,
    /// Loading the OpenGL functions of a context that is new.
    Reloading,
    /// Looking for one inbound command.
    Receiving,
    /// Duplicating the handle of a texture event.
    Duplicating(OverlayTextureEventParams),
    /// Closing the handle that the duplicate replaces.
    Closing,
    /// Reading the window and its client rectangle.
    Measuring,
    /// Taking over the window procedure of a window that is new.
    Attaching(Surface),
    /// Telling the producer the new extent.
    Resizing(Surface),
    /// Importing the shared memory.
    Importing(Surface),
    /// Building the UI renderer.
    InitRenderer(Surface),
    /// Acquiring the keyed mutex.
    Acquiring(Surface),
    /// Drawing the UI.
    Painting,
}

/// What the kernel asks its caller to do next.
#[derive(PartialEq, Eq, Debug)]
pub enum SwapRequest {
    /// Load the OpenGL functions anew.
    ReloadGl,
    /// Take one command from the inbound queue, without waiting.
    Receive,
    /// Duplicate a handle out of its process.
    Duplicate(DuplicateRequest),
    /// Close a handle.
    Close(usize),
    /// Read the window of the device context, its client rectangle and
    /// which extensions are loaded.
    Measure,
    /// Take over the window procedure of this window, with a fresh queue.
    AttachWndProc(usize),
    /// Put a command on the outbound queue.
    Send(GameWindowCommand),
    /// Import the shared memory as the storage of a texture.
    Import(ImportRequest),
    /// Build the UI renderer in the current context.
    InitRenderer,
    /// Acquire the keyed mutex on this memory object.
    Acquire(u32, SyncRequest),
    /// Draw one frame of the UI on a display of the given extent, with
    /// the overlay window in it where there is one, and release the
    /// keyed mutex, where a guard is given, before the frame is rendered.
    Paint { overlay: Option<OverlayWindow>, display: Dimensions, guard: Option<KeyedMutexHandle> },
    /// The frame's work is over: go on down the hook chain.
    Finish(Result<(), RenderError>),
}

/// What the caller reports back to the kernel.
pub enum SwapEvent {
    /// `wglSwapBuffers` was called; with the current OpenGL context.
    Begin(usize),
    /// The OpenGL functions are loaded anew.
    Reloaded,
    /// What the inbound queue gave.
    Received(Option<GameWindowCommand>),
    /// How the duplication went.
    Duplicated(Result<usize, HandleError>),
    /// How the close went.
    Closed(Result<(), HandleError>),
    /// What the device context shows.
    Measured(ClientArea),
    /// The window procedure is taken over.
    Attached,
    /// Whether the outbound queue took the command.
    Sent(bool),
    /// The imported texture, `None` where the keyed mutex could not be
    /// acquired for the import.
    Imported(Option<GlSharedTexture>),
    /// How building the renderer went.
    RendererInitialized(Result<(), OpenGLRenderError>),
    /// Whether the keyed mutex was acquired.
    Acquired(bool),
    /// How drawing went.
    Painted(Result<(), RenderError>),
}

/// One step of the kernel.
#[derive(PartialEq, Eq, Debug)]
pub struct SwapStep {
    /// A handle error that is to be logged; the frame goes on.
    pub logged: Option<HandleError>,
    pub next: SwapRequest,
}

/// What the kernel knows.
pub struct KernelState {
    pub phase: SwapPhase,
    /// The OpenGL context of the last frame.
    pub context: usize,
    /// The window whose procedure is taken over.
    pub hooked_window: usize,
    pub overlay: OverlayState,
    pub imgui: ControllerState,
}

impl KernelState {
    pub open spec fn at(self, phase: SwapPhase) -> KernelState {
        KernelState { phase, ..self }
    }

    /// Ends the frame's work.
    pub open spec fn finish(self, result: Result<(), RenderError>) -> (KernelState, SwapStep) {
        (self.at(SwapPhase::Idle), SwapStep { logged: None, next: SwapRequest::Finish(result) })
    }

    pub open spec fn ask(self, phase: SwapPhase, next: SwapRequest) -> (KernelState, SwapStep) {
        (self.at(phase), SwapStep { logged: None, next })
    }

    /// With the UI renderer prepared: the keyed mutex comes next, where
    /// there is a texture to read.
    pub open spec fn acquire(self, surface: Surface) -> (KernelState, SwapStep) {
        match self.overlay.texture {
            Some(texture) => self.ask(
                SwapPhase::Acquiring(surface),
                SwapRequest::Acquire(texture.memory, SyncRequest { key: 0, timeout_ms: u32::MAX }),
            ),
            None => self.ask(
                SwapPhase::Painting,
                SwapRequest::Paint { overlay: None, display: surface.size, guard: None },
            ),
        }
    }

    /// With the overlay texture imported: the UI renderer comes next.
    pub open spec fn after_import(self, surface: Surface) -> (KernelState, SwapStep) {
        let prepared = KernelState {
            imgui: self.imgui.prepared(surface.window, self.context),
            ..self
        };
        if !self.imgui.checked(surface.window, self.context).renderer {
            prepared.ask(SwapPhase::InitRenderer(surface), SwapRequest::InitRenderer)
        } else {
            prepared.acquire(surface)
        }
    }

    /// With the producer told of the extent: without a handle the frame
    /// ends here; else the overlay texture is prepared.
    pub open spec fn after_resize(self, surface: Surface) -> (KernelState, SwapStep) {
        if self.overlay.handle == 0 {
            self.finish(Err(RenderError::OverlayHandleNotReady))
        } else {
            let prepared = KernelState {
                overlay: self.overlay.prepared(surface.window, self.context),
                ..self
            };
            match self.overlay.plan(surface.window, self.context, surface.extensions_loaded) {
                Err(error) => prepared.finish(
                    Err(RenderError::OverlayPaintNotReady(Box::new(error))),
                ),
                Ok(PaintPlan::Ready) => prepared.after_import(surface),
                Ok(PaintPlan::Import(request)) => prepared.ask(
                    SwapPhase::Importing(surface),
                    SwapRequest::Import(request),
                ),
            }
        }
    }

    /// With the window hooked: an extent that the producer does not
    /// render at is reported to it.
    pub open spec fn after_attach(self, surface: Surface) -> (KernelState, SwapStep) {
        if self.overlay.dimensions != surface.size {
            self.ask(SwapPhase::Resizing(surface), SwapRequest::Send(resize_command(surface.size)))
        } else {
            self.after_resize(surface)
        }
    }

    /// The state and the step after an event. An event that does not
    /// answer what the phase waits on ends the frame's work.
    pub open spec fn step(self, event: SwapEvent) -> (KernelState, SwapStep) {
        match (self.phase, event) {
            (SwapPhase::Idle, SwapEvent::Begin(context)) => {
                let entered = KernelState { context, ..self };
                if self.context != context {
                    entered.ask(SwapPhase::Reloading, SwapRequest::ReloadGl)
                } else {
                    entered.ask(SwapPhase::Receiving, SwapRequest::Receive)
                }
            },
            (SwapPhase::Reloading, SwapEvent::Reloaded) => self.ask(
                SwapPhase::Receiving,
                SwapRequest::Receive,
            ),
            (SwapPhase::Receiving, SwapEvent::Received(Some(command))) => match command.params {
                GameWindowCommandParams::OverlayEvent(params) if command.ty.0
                    == GameWindowCommandType::OVERLAY => self.ask(
                    SwapPhase::Duplicating(params),
                    SwapRequest::Duplicate(
                        DuplicateRequest {
                            source_pid: i32_bits(params.source_pid) as u32,
                            handle: params.handle,
                        },
                    ),
                ),
                _ => self.ask(SwapPhase::Measuring, SwapRequest::Measure),
            },
            (SwapPhase::Receiving, SwapEvent::Received(None)) => self.ask(
                SwapPhase::Measuring,
                SwapRequest::Measure,
            ),
            (SwapPhase::Duplicating(params), SwapEvent::Duplicated(duplicated)) => {
                let refreshed = KernelState {
                    overlay: self.overlay.refreshed(params, duplicated),
                    ..self
                };
                match duplicated {
                    Err(error) => (
                        refreshed.at(SwapPhase::Measuring),
                        SwapStep { logged: Some(error), next: SwapRequest::Measure },
                    ),
                    Ok(_) => if self.overlay.handle != 0 {
                        refreshed.ask(SwapPhase::Closing, SwapRequest::Close(self.overlay.handle))
                    } else {
                        refreshed.ask(SwapPhase::Measuring, SwapRequest::Measure)
                    },
                }
            },
            (SwapPhase::Closing, SwapEvent::Closed(closed)) => (
                KernelState { overlay: self.overlay.refresh_finished(closed), ..self }.at(
                    SwapPhase::Measuring,
                ),
                SwapStep {
                    logged: match closed {
                        Err(error) if self.overlay.incoming.is_some() => Some(error),
                        _ => None,
                    },
                    next: SwapRequest::Measure,
                },
            ),
            (SwapPhase::Measuring, SwapEvent::Measured(area)) => {
                let surface = Surface {
                    size: area.size(),
                    window: area.window,
                    extensions_loaded: area.extensions_loaded,
                };
                let turned = KernelState { hooked_window: area.window, ..self };
                if self.hooked_window != area.window {
                    turned.ask(SwapPhase::Attaching(surface), SwapRequest::AttachWndProc(area.window))
                } else {
                    turned.after_attach(surface)
                }
            },
            (SwapPhase::Attaching(surface), SwapEvent::Attached) => self.after_attach(surface),
            (SwapPhase::Resizing(surface), SwapEvent::Sent(true)) => self.after_resize(surface),
            (SwapPhase::Resizing(_), SwapEvent::Sent(false)) => self.finish(
                Err(RenderError::IpcError),
            ),
            (SwapPhase::Importing(surface), SwapEvent::Imported(outcome)) => {
                let imported = KernelState {
                    overlay: self.overlay.import_finished(surface.window, self.context, outcome),
                    ..self
                };
                match outcome {
                    Some(_) => imported.after_import(surface),
                    None => imported.finish(
                        Err(
                            RenderError::OverlayPaintNotReady(
                                Box::new(RenderError::OverlayMutexNotReady),
                            ),
                        ),
                    ),
                }
            },
            (SwapPhase::InitRenderer(surface), SwapEvent::RendererInitialized(built)) => {
                let initialized = KernelState {
                    imgui: self.imgui.renderer_finished(surface.window, self.context, built),
                    ..self
                };
                match built {
                    Ok(_) => initialized.acquire(surface),
                    Err(error) => initialized.finish(
                        Err(
                            RenderError::ImGuiNotReady(
                                Box::new(RenderError::OpenGLInternalError(error)),
                            ),
                        ),
                    ),
                }
            },
            (SwapPhase::Acquiring(surface), SwapEvent::Acquired(acquired)) => match self.overlay.texture {
                Some(texture) if acquired => self.ask(
                    SwapPhase::Painting,
                    SwapRequest::Paint {
                        overlay: Some(
                            OverlayWindow {
                                texture: texture.texture as usize,
                                size: self.overlay.dimensions,
                            },
                        ),
                        display: surface.size,
                        guard: Some(KeyedMutexHandle { memory: texture.memory, key: 0 }),
                    },
                ),
                _ => self.ask(
                    SwapPhase::Painting,
                    SwapRequest::Paint { overlay: None, display: surface.size, guard: None },
                ),
            },
            (SwapPhase::Painting, SwapEvent::Painted(result)) => self.finish(result),
            _ => self.finish(Err(RenderError::KernelNotReady)),
        }
    }
}

/// How far a phase is into the work of a frame.
pub open spec fn progress(phase: SwapPhase) -> nat {
    match phase {
        SwapPhase::Idle => 0,
        SwapPhase::Reloading => 1,
        SwapPhase::Receiving => 2,
        SwapPhase::Duplicating(_) => 3,
        SwapPhase::Closing => 4,
        SwapPhase::Measuring => 5,
        SwapPhase::Attaching(_) => 6,
        SwapPhase::Resizing(_) => 7,
        SwapPhase::Importing(_) => 8,
        SwapPhase::InitRenderer(_) => 9,
        SwapPhase::Acquiring(_) => 10,
        SwapPhase::Painting => 11,
    }
}

/// The work of a frame never stalls the host. Every event moves the
/// kernel on: either the frame's work is over, and the kernel is idle
/// again exactly then, or the kernel is further into the frame than it
/// was. A frame so takes eleven requests at most before the call goes on
/// down its chain.
pub proof fn lemma_frame_makes_progress(state: KernelState, event: SwapEvent)
    ensures
        state.step(event).1.next is Finish <==> state.step(event).0.phase == SwapPhase::Idle,
        !(state.step(event).1.next is Finish) ==> progress(state.step(event).0.phase) > progress(
            state.phase,
        ),
{
}

/// Kernel for a WGL hook.
///
/// Everything in it belongs to the thread that swaps buffers: it is
/// touched only from inside the handler of `wglSwapBuffers`.
pub struct WGLKernel {
    imgui: WGLImguiController,
    overlay: WGLOverlay,
    ctx: usize,
    wp: WndProcHandle,
    phase: SwapPhase,
}

impl View for WGLKernel {
    type V = KernelState;

    closed spec fn view(&self) -> KernelState {
        KernelState {
            phase: self.phase,
            context: self.ctx,
            hooked_window: self.wp.current(),
            overlay: self.overlay@,
            imgui: self.imgui@,
        }
    }
}

impl WGLKernel {
    /// A kernel between frames, with nothing set up.
    pub fn new() -> (kernel: WGLKernel)
        ensures
            kernel@.phase == SwapPhase::Idle,
            kernel@.context == 0,
            kernel@.hooked_window == 0,
            kernel@.overlay == OverlayState::initial(),
            kernel@.imgui == ControllerState::initial(),
    {
        WGLKernel {
            imgui: WGLImguiController::new(),
            overlay: WGLOverlay::new(),
            ctx: 0,
            wp: WndProcHandle::new(),
            phase: SwapPhase::Idle,
        }
    }

    fn finish(&mut self, result: Result<(), RenderError>) -> (step: SwapStep)
        ensures
            (final(self)@, step) == old(self)@.finish(result),
    {
        self.phase = SwapPhase::Idle;
        SwapStep { logged: None, next: SwapRequest::Finish(result) }
    }

    fn ask(&mut self, phase: SwapPhase, next: SwapRequest) -> (step: SwapStep)
        ensures
            (final(self)@, step) == old(self)@.ask(phase, next),
    {
        self.phase = phase;
        SwapStep { logged: None, next }
    }

    fn acquire(&mut self, surface: Surface) -> (step: SwapStep)
        ensures
            (final(self)@, step) == old(self)@.acquire(surface),
    {
        match self.overlay.acquire_sync() {
            Some((memory, request)) => self.ask(
                SwapPhase::Acquiring(surface),
                SwapRequest::Acquire(memory, request),
            ),
            None => self.ask(
                SwapPhase::Painting,
                SwapRequest::Paint { overlay: None, display: surface.size, guard: None },
            ),
        }
    }

    fn after_import(&mut self, surface: Surface) -> (step: SwapStep)
        ensures
            (final(self)@, step) == old(self)@.after_import(surface),
    {
        if self.imgui.prepare_paint(surface.window, self.ctx) {
            self.ask(SwapPhase::InitRenderer(surface), SwapRequest::InitRenderer)
        } else {
            self.acquire(surface)
        }
    }

    fn after_resize(&mut self, surface: Surface) -> (step: SwapStep)
        ensures
            (final(self)@, step) == old(self)@.after_resize(surface),
    {
        if !self.overlay.ready_to_initialize() {
            return self.finish(Err(RenderError::OverlayHandleNotReady));
        }
        match self.overlay.prepare_paint(surface.window, self.ctx, surface.extensions_loaded) {
            Err(error) => self.finish(Err(RenderError::OverlayPaintNotReady(Box::new(error)))),
            Ok(PaintPlan::Ready) => self.after_import(surface),
            Ok(PaintPlan::Import(request)) => self.ask(
                SwapPhase::Importing(surface),
                SwapRequest::Import(request),
            ),
        }
    }

    fn after_attach(&mut self, surface: Surface) -> (step: SwapStep)
        ensures
            (final(self)@, step) == old(self)@.after_attach(surface),
    {
        if !self.overlay.size_matches_viewpoint(&surface.size) {
            let command = GameWindowCommand::window_resize(
                &Size::new(surface.size.width, surface.size.height),
            );
            self.ask(SwapPhase::Resizing(surface), SwapRequest::Send(command))
        } else {
            self.after_resize(surface)
        }
    }

    /// Takes in what the caller reports and says what to do next.
    ///
    /// A frame notes the OpenGL context and has the functions loaded anew
    /// where it changed; drains one inbound command and applies it, a
    /// texture event by refreshing the overlay; measures the window, takes
    /// over its procedure where the window is new and reports a changed
    /// extent to the producer; prepares the overlay texture and the UI
    /// renderer; and draws one frame of the UI, with the overlay in it
    /// where the keyed mutex could be acquired. Whatever fails ends the
    /// frame's work with the reason and leaves the rest for the next
    /// frame.
    pub fn swapbuffers_impl(&mut self, event: SwapEvent) -> (step: SwapStep)
        ensures
            (final(self)@, step) == old(self)@.step(event),
    {
        match (self.phase, event) {
            (SwapPhase::Idle, SwapEvent::Begin(context)) => {
                let old_ctx = self.ctx;
                self.ctx = context;
                if old_ctx != context {
                    self.ask(SwapPhase::Reloading, SwapRequest::ReloadGl)
                } else {
                    self.ask(SwapPhase::Receiving, SwapRequest::Receive)
                }
            },
            (SwapPhase::Reloading, SwapEvent::Reloaded) => self.ask(
                SwapPhase::Receiving,
                SwapRequest::Receive,
            ),
            (SwapPhase::Receiving, SwapEvent::Received(Some(command))) => {
                // Handle update of any overlay here.
                match command.params {
                    GameWindowCommandParams::OverlayEvent(params) => {
                        if command.ty.0 == GameWindowCommandType::OVERLAY {
                            self.ask(
                                SwapPhase::Duplicating(params),
                                SwapRequest::Duplicate(WGLOverlay::refresh_request(&params)),
                            )
                        } else {
                            self.ask(SwapPhase::Measuring, SwapRequest::Measure)
                        }
                    },
                    _ => self.ask(SwapPhase::Measuring, SwapRequest::Measure),
                }
            },
            (SwapPhase::Receiving, SwapEvent::Received(None)) => self.ask(
                SwapPhase::Measuring,
                SwapRequest::Measure,
            ),
            (SwapPhase::Duplicating(params), SwapEvent::Duplicated(duplicated)) => {
                match self.overlay.refresh(params, duplicated) {
                    Err(error) => {
                        self.phase = SwapPhase::Measuring;
                        SwapStep { logged: Some(error), next: SwapRequest::Measure }
                    },
                    Ok(RefreshStep::Close(handle)) => self.ask(
                        SwapPhase::Closing,
                        SwapRequest::Close(handle),
                    ),
                    Ok(RefreshStep::Done) => self.ask(SwapPhase::Measuring, SwapRequest::Measure),
                }
            },
            (SwapPhase::Closing, SwapEvent::Closed(closed)) => {
                let logged = match self.overlay.finish_refresh(closed) {
                    Err(error) => Some(error),
                    Ok(_) => None,
                };
                self.phase = SwapPhase::Measuring;
                SwapStep { logged, next: SwapRequest::Measure }
            },
            (SwapPhase::Measuring, SwapEvent::Measured(area)) => {
                let surface = Surface {
                    size: area.size(),
                    window: area.window,
                    extensions_loaded: area.extensions_loaded,
                };
                if self.wp.attach(area.window) {
                    self.ask(SwapPhase::Attaching(surface), SwapRequest::AttachWndProc(area.window))
                } else {
                    self.after_attach(surface)
                }
            },
            (SwapPhase::Attaching(surface), SwapEvent::Attached) => self.after_attach(surface),
            (SwapPhase::Resizing(surface), SwapEvent::Sent(sent)) => {
                if sent {
                    self.after_resize(surface)
                } else {
                    self.finish(Err(RenderError::IpcError))
                }
            },
            (SwapPhase::Importing(surface), SwapEvent::Imported(outcome)) => {
                match self.overlay.finish_import(surface.window, self.ctx, outcome) {
                    Ok(_) => self.after_import(surface),
                    Err(error) => self.finish(
                        Err(RenderError::OverlayPaintNotReady(Box::new(error))),
                    ),
                }
            },
            (SwapPhase::InitRenderer(surface), SwapEvent::RendererInitialized(built)) => {
                match self.imgui.renderer_initialized(surface.window, self.ctx, built) {
                    Ok(_) => self.acquire(surface),
                    Err(error) => self.finish(Err(RenderError::ImGuiNotReady(Box::new(error)))),
                }
            },
            (SwapPhase::Acquiring(surface), SwapEvent::Acquired(acquired)) => {
                let guard = match self.overlay.acquire_sync() {
                    Some((memory, request)) => KeyedMutexHandle::new(acquired, memory, request.key),
                    None => None,
                };
                let overlay = if guard.is_some() {
                    self.overlay.paint()
                } else {
                    None
                };
                self.ask(
                    SwapPhase::Painting,
                    SwapRequest::Paint { overlay, display: surface.size, guard },
                )
            },
            (SwapPhase::Painting, SwapEvent::Painted(result)) => self.finish(result),
            _ => self.finish(Err(RenderError::KernelNotReady)),
        }
    }
}

impl FrameKernel for WGLKernel {
    type Handle = WGLHookHandle;

    type Context = WGLHookContext;

    type Hooks = (usize, u64);

    open spec fn valid(context: &WGLHookContext) -> bool {
        context.wf()
    }

    /// Registers the kernel's own handler and persists it: the hook stays
    /// for as long as the process does.
    fn init(&mut self, context: &mut WGLHookContext, swap_buffers: (usize, u64)) -> (handle: Result<
        ManuallyDrop<WGLHookHandle>,
        HookError,
    >)
        ensures
            final(self)@ == old(self)@,
            match handle {
                Ok(kept) => {
                    &&& kept@.key() == swap_buffers.0
                    &&& final(context).chain() == old(context).chain().push(swap_buffers)
                },
                Err(error) => {
                    &&& error == HookError::KeyInUse(swap_buffers.0)
                    &&& has_key(old(context).chain(), swap_buffers.0)
                    &&& final(context).chain() == old(context).chain()
                },
            },
    {
        match context.new(swap_buffers) {
            Ok(handle) => Ok(handle.persist()),
            Err(error) => Err(error),
        }
    }
}

} // verus!
