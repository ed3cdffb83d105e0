//! The frame kernel of the Direct3D 11 backend: what happens inside one
//! call of `Present` before the call goes on down its chain.
//!
//! The kernel asks for one thing at a time and is told how it went. It
//! never fails the host's frame: whatever goes wrong ends in a `Finish`
//! with the reason, after which the caller advances the hook chain.

use crate::common::{
    resize_command, Dimensions, DuplicateRequest, OverlayWindow, RefreshStep, RenderError,
    SyncRequest,
};
use crate::d3d11::hook_d3d11::{Direct3D11HookContext, Direct3D11HookHandle};
use crate::d3d11::imgui_d3d11::{ControllerPlan, ControllerState, Direct3D11ImguiController};
use crate::d3d11::overlay_d3d11::{
    import_error, Direct3D11Overlay, ImportError, ImportedTexture, KeyedMutexHandle, OverlayState,
    PaintPlan,
};
use crate::hook::{has_key, HookError, HookHandle};
use crate::ipc::cmd::{
    i32_bits, GameWindowCommand, GameWindowCommandParams, GameWindowCommandType, Size,
};
use crate::win32::handle::HandleError;
use std::mem::ManuallyDrop;
use vstd::prelude::*;

verus! {

/// Where the work of a frame stands.
#[derive(PartialEq, Eq, Copy, Clone, Debug, Structural)]
pub enum PresentPhase {
    /// Between frames.
    Idle,
    /// Looking for one inbound command.
    Receiving,
    /// Duplicating the handle of a texture event.
    Duplicating,
    /// Closing the handle that the duplicate replaces.
    Closing,
    /// Reading the extent and the output window of the back buffer.
    Measuring,
    /// Telling the producer the new extent.
    Resizing { size: Dimensions, window: usize },
    /// Opening the shared texture.
    Importing { size: Dimensions, window: usize },
    /// Building the UI renderer.
    InitRenderer { size: Dimensions, window: usize },
    /// Getting the render target view.
    InitRtv { size: Dimensions, window: usize },
    /// Acquiring the keyed mutex.
    Acquiring { size: Dimensions },
    /// Drawing the UI under the keyed mutex.
    Painting,
}

/// What the kernel asks its caller to do next.
#[derive(PartialEq, Eq, Debug)]
pub enum PresentRequest {
    /// Take one command from the inbound queue, without waiting.
    Receive,
    /// Duplicate a handle out of its process.
    Duplicate(DuplicateRequest),
    /// Close a handle.
    Close(usize),
    /// Read the extent of the back buffer and the output window of the
    /// swap chain.
    Measure,
    /// Put a command on the outbound queue.
    Send(GameWindowCommand),
    /// Open the shared handle on the device of the swap chain.
    Import(usize),
    /// Build the UI renderer on the device of the swap chain.
    InitRenderer,
    /// Get or create the render target view.
    InitRtv,
    /// Acquire the keyed mutex of the shared texture.
    Acquire(SyncRequest),
    /// Draw one frame of the UI with the overlay window in it, on a
    /// display of the given extent, and release the keyed mutex under
    /// the guard's key on every way out.
    Paint { overlay: OverlayWindow, display: Dimensions, guard: KeyedMutexHandle },
    /// The frame's work is over: go on down the hook chain.
    Finish(Result<(), RenderError>),
}

/// What the caller reports back to the kernel.
pub enum PresentEvent {
    /// `Present` was called.
    Begin,
    /// What the inbound queue gave.
    Received(Option<GameWindowCommand>),
    /// How the duplication went.
    Duplicated(Result<usize, HandleError>),
    /// How the close went.
    Closed(Result<(), HandleError>),
    /// The extent of the back buffer and the output window, or the
    /// `HRESULT` of the call that failed.
    Measured(Result<(Dimensions, usize), i32>),
    /// Whether the outbound queue took the command.
    Sent(bool),
    /// How opening the shared texture went.
    Imported(Result<ImportedTexture, ImportError>),
    /// How building the renderer went, with the `HRESULT` of a failure.
    RendererInitialized(Result<(), i32>),
    /// How getting the render target view went.
    RtvInitialized(Result<(), i32>),
    /// Whether the keyed mutex was acquired.
    Acquired(bool),
    /// How drawing went.
    Painted(Result<(), RenderError>),
}

/// One step of the kernel.
#[derive(PartialEq, Eq, Debug)]
pub struct PresentStep {
    /// A handle error that is to be logged; the frame goes on.
    pub logged: Option<HandleError>,
    pub next: PresentRequest,
}

/// What the kernel knows.
pub struct KernelState {
    pub phase: PresentPhase,
    pub overlay: OverlayState,
    pub imgui: ControllerState,
}

impl KernelState {
    pub open spec fn at(self, phase: PresentPhase) -> KernelState {
        KernelState { phase, ..self }
    }

    /// Ends the frame's work.
    pub open spec fn finish(self, result: Result<(), RenderError>) -> (KernelState, PresentStep) {
        (self.at(PresentPhase::Idle), PresentStep { logged: None, next: PresentRequest::Finish(result) })
    }

    pub open spec fn ask(self, phase: PresentPhase, next: PresentRequest) -> (
        KernelState,
        PresentStep,
    ) {
        (self.at(phase), PresentStep { logged: None, next })
    }

    /// With the UI renderer prepared: the keyed mutex comes next.
    pub open spec fn acquire(self, size: Dimensions) -> (KernelState, PresentStep) {
        if self.overlay.texture.is_some() {
            self.ask(
                PresentPhase::Acquiring { size },
                PresentRequest::Acquire(SyncRequest { key: 0, timeout_ms: u32::MAX }),
            )
        } else {
            self.finish(Err(RenderError::OverlayMutexNotReady))
        }
    }

    /// With the overlay prepared: asks for what the UI renderer misses.
    pub open spec fn prepare_imgui(self, plan: ControllerPlan, size: Dimensions, window: usize) -> (
        KernelState,
        PresentStep,
    ) {
        match plan {
            ControllerPlan::Ready => self.acquire(size),
            ControllerPlan::InitRenderer => self.ask(
                PresentPhase::InitRenderer { size, window },
                PresentRequest::InitRenderer,
            ),
            ControllerPlan::InitRtv => self.ask(
                PresentPhase::InitRtv { size, window },
                PresentRequest::InitRtv,
            ),
        }
    }

    /// With the overlay texture opened: the UI renderer comes next.
    pub open spec fn after_import(self, size: Dimensions, window: usize) -> (
        KernelState,
        PresentStep,
    ) {
        KernelState { imgui: self.imgui.prepared(window), ..self }.prepare_imgui(
            self.imgui.checked(window).missing(),
            size,
            window,
        )
    }

    /// With the producer told of the extent: without a handle the frame
    /// ends here; else the overlay texture is prepared.
    pub open spec fn after_resize(self, size: Dimensions, window: usize) -> (
        KernelState,
        PresentStep,
    ) {
        if self.overlay.handle == 0 {
            self.finish(Err(RenderError::OverlayHandleNotReady))
        } else {
            let prepared = KernelState { overlay: self.overlay.prepared(window), ..self };
            match self.overlay.plan(window) {
                PaintPlan::Ready => prepared.after_import(size, window),
                PaintPlan::Import(handle) => prepared.ask(
                    PresentPhase::Importing { size, window },
                    PresentRequest::Import(handle),
                ),
            }
        }
    }

    /// With the back buffer measured: an extent that the producer does
    /// not render at is reported to it.
    pub open spec fn after_measure(self, size: Dimensions, window: usize) -> (
        KernelState,
        PresentStep,
    ) {
        if self.overlay.dimensions != size {
            self.ask(
                PresentPhase::Resizing { size, window },
                PresentRequest::Send(resize_command(size)),
            )
        } else {
            self.after_resize(size, window)
        }
    }

    /// The state and the step after an event. An event that does not
    /// answer what the phase waits on ends the frame's work.
    pub open spec fn step(self, event: PresentEvent) -> (KernelState, PresentStep) {
        match (self.phase, event) {
            (PresentPhase::Idle, PresentEvent::Begin) => self.ask(
                PresentPhase::Receiving,
                PresentRequest::Receive,
            ),
            (PresentPhase::Receiving, PresentEvent::Received(Some(command))) => match command.params {
                GameWindowCommandParams::OverlayEvent(params) if command.ty.0
                    == GameWindowCommandType::OVERLAY => self.ask(
                    PresentPhase::Duplicating,
                    PresentRequest::Duplicate(
                        DuplicateRequest {
                            source_pid: i32_bits(params.source_pid) as u32,
                            handle: params.handle,
                        },
                    ),
                ),
                _ => self.ask(PresentPhase::Measuring, PresentRequest::Measure),
            },
            (PresentPhase::Receiving, PresentEvent::Received(None)) => self.ask(
                PresentPhase::Measuring,
                PresentRequest::Measure,
            ),
            (PresentPhase::Duplicating, PresentEvent::Duplicated(duplicated)) => {
                let refreshed = KernelState { overlay: self.overlay.refreshed(duplicated), ..self };
                match duplicated {
                    Err(error) => (
                        refreshed.at(PresentPhase::Measuring),
                        PresentStep { logged: Some(error), next: PresentRequest::Measure },
                    ),
                    Ok(_) => if self.overlay.handle != 0 {
                        refreshed.ask(
                            PresentPhase::Closing,
                            PresentRequest::Close(self.overlay.handle),
                        )
                    } else {
                        refreshed.ask(PresentPhase::Measuring, PresentRequest::Measure)
                    },
                }
            },
            (PresentPhase::Closing, PresentEvent::Closed(closed)) => (
                KernelState { overlay: self.overlay.refresh_finished(closed), ..self }.at(
                    PresentPhase::Measuring,
                ),
                PresentStep {
                    logged: match closed {
                        Err(error) if self.overlay.incoming.is_some() => Some(error),
                        _ => None,
                    },
                    next: PresentRequest::Measure,
                },
            ),
            (PresentPhase::Measuring, PresentEvent::Measured(Err(code))) => self.finish(
                Err(RenderError::DXGIInternalError(code)),
            ),
            (PresentPhase::Measuring, PresentEvent::Measured(Ok((size, window)))) => self.after_measure(
                size,
                window,
            ),
            (PresentPhase::Resizing { size, window }, PresentEvent::Sent(true)) => self.after_resize(
                size,
                window,
            ),
            (PresentPhase::Resizing { .. }, PresentEvent::Sent(false)) => self.finish(
                Err(RenderError::IpcError),
            ),
            (PresentPhase::Importing { size, window }, PresentEvent::Imported(outcome)) => {
                let imported = KernelState {
                    overlay: self.overlay.import_finished(window, outcome),
                    ..self
                };
                match outcome {
                    Ok(_) => imported.after_import(size, window),
                    Err(error) => imported.finish(
                        Err(
                            RenderError::OverlayPaintNotReady(
                                Box::new(import_error(self.overlay.handle, error)),
                            ),
                        ),
                    ),
                }
            },
            (
                PresentPhase::InitRenderer { size, window },
                PresentEvent::RendererInitialized(built),
            ) => {
                let initialized = KernelState {
                    imgui: self.imgui.renderer_finished(window, built),
                    ..self
                };
                match built {
                    Ok(_) => initialized.prepare_imgui(
                        ControllerState { renderer: true, window, ..self.imgui }.missing(),
                        size,
                        window,
                    ),
                    Err(code) => initialized.finish(
                        Err(
                            RenderError::ImGuiNotReady(
                                Box::new(RenderError::DXGIInternalError(code)),
                            ),
                        ),
                    ),
                }
            },
            (PresentPhase::InitRtv { size, window }, PresentEvent::RtvInitialized(got)) => {
                let initialized = KernelState { imgui: self.imgui.rtv_finished(window, got), ..self };
                match got {
                    Ok(_) => initialized.prepare_imgui(
                        ControllerState { rtv: true, ..self.imgui }.missing(),
                        size,
                        window,
                    ),
                    Err(code) => initialized.finish(
                        Err(
                            RenderError::ImGuiNotReady(
                                Box::new(RenderError::DXGIInternalError(code)),
                            ),
                        ),
                    ),
                }
            },
            (PresentPhase::Acquiring { size }, PresentEvent::Acquired(true)) => match self.overlay.texture {
                Some(texture) => self.ask(
                    PresentPhase::Painting,
                    PresentRequest::Paint {
                        overlay: OverlayWindow { texture, size: self.overlay.dimensions },
                        display: size,
                        guard: KeyedMutexHandle::held(),
                    },
                ),
                None => self.finish(Err(RenderError::OverlayMutexNotReady)),
            },
            (PresentPhase::Acquiring { .. }, PresentEvent::Acquired(false)) => self.finish(
                Err(RenderError::OverlayMutexNotReady),
            ),
            (PresentPhase::Painting, PresentEvent::Painted(result)) => self.finish(result),
            _ => self.finish(Err(RenderError::KernelNotReady)),
        }
    }
}

/// How far a phase is into the work of a frame.
pub open spec fn progress(phase: PresentPhase) -> nat {
    match phase {
        PresentPhase::Idle => 0,
        PresentPhase::Receiving => 1,
        PresentPhase::Duplicating => 2,
        PresentPhase::Closing => 3,
        PresentPhase::Measuring => 4,
        PresentPhase::Resizing { .. } => 5,
        PresentPhase::Importing { .. } => 6,
        PresentPhase::InitRenderer { .. } => 7,
        PresentPhase::InitRtv { .. } => 8,
        PresentPhase::Acquiring { .. } => 9,
        PresentPhase::Painting => 10,
    }
}

impl KernelState {
    /// What holds of every state that the kernel reaches: the render
    /// target view is asked for only once the renderer is built.
    pub open spec fn wf(self) -> bool {
        self.phase is InitRtv ==> self.imgui.renderer
    }
}

/// The work of a frame never stalls the host. Every event moves the
/// kernel on: either the frame's work is over, and the kernel is idle
/// again exactly then, or the kernel is further into the frame than it
/// was. A frame so takes ten requests at most before the call goes on
/// down its chain.
pub proof fn lemma_frame_makes_progress(state: KernelState, event: PresentEvent)
    requires
        state.wf(),
    ensures
        state.step(event).0.wf(),
        state.step(event).1.next is Finish <==> state.step(event).0.phase == PresentPhase::Idle,
        !(state.step(event).1.next is Finish) ==> progress(state.step(event).0.phase) > progress(
            state.phase,
        ),
{
}

/// Kernel for a Direct3D 11 hook.
///
/// `overlay` and `imgui` belong to the thread that presents: they are
/// touched only from inside the handlers of `Present` and
/// `ResizeBuffers`.
pub struct Direct3D11Kernel {
    overlay: Direct3D11Overlay,
    imgui: Direct3D11ImguiController,
    phase: PresentPhase,
}

impl View for Direct3D11Kernel {
    type V = KernelState;

    closed spec fn view(&self) -> KernelState {
        KernelState { phase: self.phase, overlay: self.overlay@, imgui: self.imgui@ }
    }
}

impl Direct3D11Kernel {
    /// A kernel between frames, with nothing set up.
    pub fn new() -> (kernel: Direct3D11Kernel)
        ensures
            kernel@.wf(),
            kernel@.phase == PresentPhase::Idle,
            kernel@.overlay == OverlayState::initial(),
            kernel@.imgui == ControllerState::initial(),
    {
        Direct3D11Kernel {
            overlay: Direct3D11Overlay::new(),
            imgui: Direct3D11ImguiController::new(),
            phase: PresentPhase::Idle,
        }
    }

    /// Registers the kernel's own handlers, for `Present` and for
    /// `ResizeBuffers`, and persists them: the hooks stay for as long as
    /// the process does.
    pub fn init(
        &self,
        hook: &mut Direct3D11HookContext,
        present: (usize, u64),
        resize_buffers: (usize, u64),
    ) -> (handle: Result<ManuallyDrop<Direct3D11HookHandle>, HookError>)
        requires
            old(hook).wf(),
        ensures
            final(hook).wf(),
            match handle {
                Ok(kept) => {
                    &&& kept@.present_key() == present.0
                    &&& kept@.resize_buffers_key() == resize_buffers.0
                    &&& final(hook).present_chain() == old(hook).present_chain().push(present)
                    &&& final(hook).resize_buffers_chain() == old(hook).resize_buffers_chain().push(
                        resize_buffers,
                    )
                },
                Err(_) => {
                    &&& has_key(old(hook).present_chain(), present.0) || has_key(
                        old(hook).resize_buffers_chain(),
                        resize_buffers.0,
                    )
                    &&& final(hook).present_chain() == old(hook).present_chain()
                    &&& final(hook).resize_buffers_chain() == old(hook).resize_buffers_chain()
                },
            },
    {
        match hook.new(present, resize_buffers) {
            Ok(handle) => Ok(handle.persist()),
            Err(error) => Err(error),
        }
    }

    /// What the handler of `ResizeBuffers` does before it goes on down
    /// its chain: the render target view belongs to the old buffers.
    pub fn resize_impl(&mut self)
        ensures
            final(self)@.imgui == (ControllerState { rtv: false, ..old(self)@.imgui }),
            final(self)@.overlay == old(self)@.overlay,
            final(self)@.phase == old(self)@.phase,
    {
        self.imgui.invalidate_rtv();
    }

    fn finish(&mut self, result: Result<(), RenderError>) -> (step: PresentStep)
        ensures
            (final(self)@, step) == old(self)@.finish(result),
    {
        self.phase = PresentPhase::Idle;
        PresentStep { logged: None, next: PresentRequest::Finish(result) }
    }

    fn ask(&mut self, phase: PresentPhase, next: PresentRequest) -> (step: PresentStep)
        ensures
            (final(self)@, step) == old(self)@.ask(phase, next),
    {
        self.phase = phase;
        PresentStep { logged: None, next }
    }

    fn acquire(&mut self, size: Dimensions) -> (step: PresentStep)
        ensures
            (final(self)@, step) == old(self)@.acquire(size),
    {
        match self.overlay.acquire_sync() {
            Some(request) => self.ask(
                PresentPhase::Acquiring { size },
                PresentRequest::Acquire(request),
            ),
            None => self.finish(Err(RenderError::OverlayMutexNotReady)),
        }
    }

    fn prepare_imgui(&mut self, plan: ControllerPlan, size: Dimensions, window: usize) -> (step:
        PresentStep)
        ensures
            (final(self)@, step) == old(self)@.prepare_imgui(plan, size, window),
    {
        match plan {
            ControllerPlan::Ready => self.acquire(size),
            ControllerPlan::InitRenderer => self.ask(
                PresentPhase::InitRenderer { size, window },
                PresentRequest::InitRenderer,
            ),
            ControllerPlan::InitRtv => self.ask(
                PresentPhase::InitRtv { size, window },
                PresentRequest::InitRtv,
            ),
        }
    }

    fn after_import(&mut self, size: Dimensions, window: usize) -> (step: PresentStep)
        ensures
            (final(self)@, step) == old(self)@.after_import(size, window),
    {
        let plan = self.imgui.prepare_paint(window);
        self.prepare_imgui(plan, size, window)
    }

    fn after_resize(&mut self, size: Dimensions, window: usize) -> (step: PresentStep)
        ensures
            (final(self)@, step) == old(self)@.after_resize(size, window),
    {
        if !self.overlay.ready_to_initialize() {
            return self.finish(Err(RenderError::OverlayHandleNotReady));
        }
        match self.overlay.prepare_paint(window) {
            PaintPlan::Ready => self.after_import(size, window),
            PaintPlan::Import(handle) => self.ask(
                PresentPhase::Importing { size, window },
                PresentRequest::Import(handle),
            ),
        }
    }

    fn after_measure(&mut self, size: Dimensions, window: usize) -> (step: PresentStep)
        ensures
            (final(self)@, step) == old(self)@.after_measure(size, window),
    {
        if !self.overlay.size_matches_viewpoint(&size) {
            let command = GameWindowCommand::window_resize(&Size::new(size.width, size.height));
            self.ask(PresentPhase::Resizing { size, window }, PresentRequest::Send(command))
        } else {
            self.after_resize(size, window)
        }
    }

    /// Takes in what the caller reports and says what to do next.
    ///
    /// A frame drains one inbound command and applies it, a texture
    /// event by refreshing the overlay; measures the back buffer and
    /// reports a changed extent to the producer; prepares the overlay
    /// texture and the UI renderer; and draws one frame of the UI under
    /// the keyed mutex. Whatever fails ends the frame's work with the
    /// reason and leaves the rest for the next frame.
    pub fn present_impl(&mut self, event: PresentEvent) -> (step: PresentStep)
        ensures
            (final(self)@, step) == old(self)@.step(event),
    {
        match (self.phase, event) {
            (PresentPhase::Idle, PresentEvent::Begin) => self.ask(
                PresentPhase::Receiving,
                PresentRequest::Receive,
            ),
            (PresentPhase::Receiving, PresentEvent::Received(Some(command))) => {
                // Handle update of any overlay here.
                match command.params {
                    GameWindowCommandParams::OverlayEvent(params) => {
                        if command.ty.0 == GameWindowCommandType::OVERLAY {
                            self.ask(
                                PresentPhase::Duplicating,
                                PresentRequest::Duplicate(
                                    Direct3D11Overlay::refresh_request(&params),
                                ),
                            )
                        } else {
                            self.ask(PresentPhase::Measuring, PresentRequest::Measure)
                        }
                    },
                    _ => self.ask(PresentPhase::Measuring, PresentRequest::Measure),
                }
            },
            (PresentPhase::Receiving, PresentEvent::Received(None)) => self.ask(
                PresentPhase::Measuring,
                PresentRequest::Measure,
            ),
            (PresentPhase::Duplicating, PresentEvent::Duplicated(duplicated)) => {
                match self.overlay.refresh(duplicated) {
                    Err(error) => {
                        self.phase = PresentPhase::Measuring;
                        PresentStep { logged: Some(error), next: PresentRequest::Measure }
                    },
                    Ok(RefreshStep::Close(handle)) => self.ask(
                        PresentPhase::Closing,
                        PresentRequest::Close(handle),
                    ),
                    Ok(RefreshStep::Done) => self.ask(
                        PresentPhase::Measuring,
                        PresentRequest::Measure,
                    ),
                }
            },
            (PresentPhase::Closing, PresentEvent::Closed(closed)) => {
                let logged = match self.overlay.finish_refresh(closed) {
                    Err(error) => Some(error),
                    Ok(_) => None,
                };
                self.phase = PresentPhase::Measuring;
                PresentStep { logged, next: PresentRequest::Measure }
            },
            (PresentPhase::Measuring, PresentEvent::Measured(Err(code))) => self.finish(
                Err(RenderError::DXGIInternalError(code)),
            ),
            (PresentPhase::Measuring, PresentEvent::Measured(Ok((size, window)))) => self.after_measure(
                size,
                window,
            ),
            (PresentPhase::Resizing { size, window }, PresentEvent::Sent(sent)) => {
                if sent {
                    self.after_resize(size, window)
                } else {
                    self.finish(Err(RenderError::IpcError))
                }
            },
            (PresentPhase::Importing { size, window }, PresentEvent::Imported(outcome)) => {
                match self.overlay.finish_import(window, outcome) {
                    Ok(_) => self.after_import(size, window),
                    Err(error) => self.finish(
                        Err(RenderError::OverlayPaintNotReady(Box::new(error))),
                    ),
                }
            },
            (
                PresentPhase::InitRenderer { size, window },
                PresentEvent::RendererInitialized(built),
            ) => {
                match self.imgui.renderer_initialized(window, built) {
                    Ok(plan) => self.prepare_imgui(plan, size, window),
                    Err(error) => self.finish(Err(RenderError::ImGuiNotReady(Box::new(error)))),
                }
            },
            (PresentPhase::InitRtv { size, window }, PresentEvent::RtvInitialized(got)) => {
                match self.imgui.rtv_initialized(window, got) {
                    Ok(plan) => self.prepare_imgui(plan, size, window),
                    Err(error) => self.finish(Err(RenderError::ImGuiNotReady(Box::new(error)))),
                }
            },
            (PresentPhase::Acquiring { size }, PresentEvent::Acquired(acquired)) => {
                // The overlay does not change underneath the painting: it
                // is updated within Present alone.
                match (KeyedMutexHandle::new(acquired, 0), self.overlay.paint()) {
                    (Some(guard), Some(overlay)) => self.ask(
                        PresentPhase::Painting,
                        PresentRequest::Paint { overlay, display: size, guard },
                    ),
                    _ => self.finish(Err(RenderError::OverlayMutexNotReady)),
                }
            },
            (PresentPhase::Painting, PresentEvent::Painted(result)) => self.finish(result),
            _ => self.finish(Err(RenderError::KernelNotReady)),
        }
    }
}

} // verus!
