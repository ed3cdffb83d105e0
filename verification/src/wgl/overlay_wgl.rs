//! The overlay texture of the WGL backend: memory that the producer
//! shares by handle and that is imported into the current OpenGL context
//! as the storage of a texture.
//!
//! The synchronizer decides and keeps the books; the caller makes the
//! system and OpenGL calls that it asks for and reports how they went.

use crate::common::{
    Dimensions, DuplicateRequest, OpenGLRenderError, OverlayPhase, OverlayWindow, RefreshStep,
    RenderError, SyncRequest,
};
use crate::ipc::cmd::{i32_bits, i32_to_u32, OverlayTextureEventParams};
use crate::win32::handle::HandleError;
use vstd::prelude::*;

verus! {

/// The memory import that `prepare_paint` asks for.
#[derive(PartialEq, Eq, Copy, Clone, Debug, Structural)]
pub struct ImportRequest {
    pub handle: usize,
    /// The size of the shared memory in bytes.
    pub size: u64,
    pub dimensions: Dimensions,
}

/// What `prepare_paint` asks of the OpenGL context.
#[derive(PartialEq, Eq, Copy, Clone, Debug, Structural)]
pub enum PaintPlan {
    /// Nothing: the texture is imported for this window and context.
    Ready,
    /// Create a texture and a memory object, import the handle into the
    /// memory object and, under the keyed mutex, make the memory the
    /// storage of the texture; report the outcome with `finish_import`.
    Import(ImportRequest),
}

/// A texture whose storage is the shared memory.
#[derive(PartialEq, Eq, Copy, Clone, Debug, Structural)]
pub struct GlSharedTexture {
    pub texture: u32,
    pub memory: u32,
}

/// A keyed mutex that is held. Whoever holds it releases it on `memory`
/// under `key` on every path out of the scope that acquired it.
#[derive(PartialEq, Eq, Copy, Clone, Debug, Structural)]
pub struct KeyedMutexHandle {
    pub memory: u32,
    pub key: u64,
}

impl KeyedMutexHandle {
    /// The guard of an acquisition on `memory` under `key`, where there
    /// is one: `acquired` tells whether the mutex was got.
    pub fn new(acquired: bool, memory: u32, key: u64) -> (guard: Option<KeyedMutexHandle>)
        ensures
            guard == if acquired {
                Some(KeyedMutexHandle { memory, key })
            } else {
                None
            },
    {
        if acquired {
            Some(KeyedMutexHandle { memory, key })
        } else {
            None
        }
    }
}

/// The extensions without which no shared memory can be imported.
pub open spec fn required_extensions() -> Seq<char> {
    "GL_EXT_memory_object_win32, GL_EXT_direct_state_access"@
}

/// A fresh duplicate with what the producer said of the texture behind it.
#[derive(PartialEq, Eq, Copy, Clone, Debug, Structural)]
pub struct Incoming {
    pub handle: usize,
    pub dimensions: Dimensions,
    pub size: u64,
}

/// What the synchronizer knows.
#[derive(PartialEq, Eq, Copy, Clone, Debug, Structural)]
pub struct OverlayState {
    /// The duplicate of the producer's handle that this process owns,
    /// `0` for none.
    pub handle: usize,
    /// The window that the texture was imported for.
    pub window: usize,
    /// The OpenGL context that the texture was imported into.
    pub context: usize,
    /// The extent of the producer's texture as the producer gave it.
    pub dimensions: Dimensions,
    /// The size of the shared memory in bytes.
    pub size: u64,
    /// The imported texture.
    pub texture: Option<GlSharedTexture>,
    /// A fresh duplicate that takes the place of `handle` once that is
    /// closed.
    pub incoming: Option<Incoming>,
}

impl OverlayState {
    /// The state before any handle has arrived.
    pub open spec fn initial() -> OverlayState {
        OverlayState {
            handle: 0,
            window: 0,
            context: 0,
            dimensions: Dimensions { width: 0, height: 0 },
            size: 0,
            texture: None,
            incoming: None,
        }
    }

    pub open spec fn phase(self) -> OverlayPhase {
        if self.texture.is_some() {
            OverlayPhase::Imported
        } else if self.handle != 0 {
            OverlayPhase::HandleReceived
        } else {
            OverlayPhase::Uninitialized
        }
    }

    /// The state with the imported texture dropped.
    pub open spec fn invalidated(self) -> OverlayState {
        OverlayState { texture: None, ..self }
    }

    /// The state with a duplicate in the place of the owned handle.
    pub open spec fn installed(self, incoming: Incoming) -> OverlayState {
        OverlayState {
            handle: incoming.handle,
            dimensions: incoming.dimensions,
            size: incoming.size,
            incoming: None,
            ..self
        }
    }

    /// The state after a refresh whose duplication went as `duplicated`
    /// tells. A failed duplication changes nothing. A duplicate drops the
    /// imported texture, which belongs to the stale handle; it takes the
    /// place of the handle at once where none is owned, and waits for
    /// the owned one to be closed otherwise.
    pub open spec fn refreshed(
        self,
        params: OverlayTextureEventParams,
        duplicated: Result<usize, HandleError>,
    ) -> OverlayState {
        match duplicated {
            Err(_) => self,
            Ok(duplicate) => {
                let incoming = Incoming {
                    handle: duplicate,
                    dimensions: Dimensions { width: params.width, height: params.height },
                    size: params.size,
                };
                if self.handle != 0 {
                    OverlayState { texture: None, incoming: Some(incoming), ..self }
                } else {
                    self.invalidated().installed(incoming)
                }
            },
        }
    }

    /// The state after the owned handle was closed, or could not be: the
    /// duplicate that waited takes its place, or is given up.
    pub open spec fn refresh_finished(self, closed: Result<(), HandleError>) -> OverlayState {
        match self.incoming {
            None => self,
            Some(incoming) => match closed {
                Ok(_) => self.installed(incoming),
                Err(_) => OverlayState { incoming: None, ..self },
            },
        }
    }

    /// Whether the texture is imported for this window and context.
    pub open spec fn imported_for(self, window: usize, context: usize) -> bool {
        self.texture.is_some() && self.window == window && self.context == context
    }

    /// What `prepare_paint` asks for a window and a context.
    pub open spec fn plan(self, window: usize, context: usize, extensions_loaded: bool) -> Result<
        PaintPlan,
        RenderError,
    > {
        if self.imported_for(window, context) {
            Ok(PaintPlan::Ready)
        } else if !extensions_loaded {
            Err(
                RenderError::OpenGLInternalError(
                    OpenGLRenderError::MissingExtensionError(
                        "GL_EXT_memory_object_win32, GL_EXT_direct_state_access",
                    ),
                ),
            )
        } else {
            Ok(
                PaintPlan::Import(
                    ImportRequest {
                        handle: self.handle,
                        size: self.size,
                        dimensions: self.dimensions,
                    },
                ),
            )
        }
    }

    /// The state after `prepare_paint`: untouched where the texture is
    /// imported for the window and the context, without a texture
    /// otherwise.
    pub open spec fn prepared(self, window: usize, context: usize) -> OverlayState {
        if self.imported_for(window, context) {
            self
        } else {
            self.invalidated()
        }
    }

    /// The state after the context reported on the import: `None` where
    /// the keyed mutex could not be acquired.
    pub open spec fn import_finished(
        self,
        window: usize,
        context: usize,
        outcome: Option<GlSharedTexture>,
    ) -> OverlayState {
        match outcome {
            Some(texture) => OverlayState { texture: Some(texture), window, context, ..self },
            None => self,
        }
    }
}

/// The synchronizer of the shared overlay texture.
pub struct WGLOverlay {
    state: OverlayState,
}

impl View for WGLOverlay {
    type V = OverlayState;

    closed spec fn view(&self) -> OverlayState {
        self.state
    }
}

impl WGLOverlay {
    pub fn new() -> (overlay: WGLOverlay)
        ensures
            overlay@ == OverlayState::initial(),
    {
        WGLOverlay {
            state: OverlayState {
                handle: 0,
                window: 0,
                context: 0,
                dimensions: Dimensions::new(0, 0),
                size: 0,
                texture: None,
                incoming: None,
            },
        }
    }

    /// Whether a shared handle is owned.
    pub fn ready_to_initialize(&self) -> (ready: bool)
        ensures
            ready <==> self@.handle != 0,
    {
        self.state.handle != 0
    }

    /// Whether the shared texture is imported.
    pub fn ready_to_paint(&self) -> (ready: bool)
        ensures
            ready <==> self@.phase() == OverlayPhase::Imported,
    {
        self.state.texture.is_some()
    }

    pub fn phase(&self) -> (phase: OverlayPhase)
        ensures
            phase == self@.phase(),
    {
        if self.state.texture.is_some() {
            OverlayPhase::Imported
        } else if self.state.handle != 0 {
            OverlayPhase::HandleReceived
        } else {
            OverlayPhase::Uninitialized
        }
    }

    /// The extent of the producer's texture as the producer gave it.
    pub fn dimensions(&self) -> (dimensions: Dimensions)
        ensures
            dimensions == self@.dimensions,
    {
        self.state.dimensions
    }

    /// Drops the imported texture.
    pub fn invalidate(&mut self)
        ensures
            final(self)@ == old(self)@.invalidated(),
    {
        self.state.texture = None;
    }

    /// Whether the producer renders at `size`.
    pub fn size_matches_viewpoint(&self, size: &Dimensions) -> (matches: bool)
        ensures
            matches <==> self@.dimensions == *size,
    {
        self.state.dimensions.width == size.width && self.state.dimensions.height == size.height
    }

    /// The acquisition that has to come before any read of the texture:
    /// on its memory object, under key `0`, waiting without limit. `None`
    /// where no texture is imported.
    pub fn acquire_sync(&self) -> (request: Option<(u32, SyncRequest)>)
        ensures
            request == match self@.texture {
                Some(texture) => Some((texture.memory, SyncRequest { key: 0, timeout_ms: u32::MAX })),
                None => None,
            },
    {
        match self.state.texture {
            Some(texture) => Some((texture.memory, SyncRequest { key: 0, timeout_ms: u32::MAX })),
            None => None,
        }
    }

    /// The duplication that a texture event asks for.
    pub fn refresh_request(params: &OverlayTextureEventParams) -> (request: DuplicateRequest)
        ensures
            request.source_pid == i32_bits(params.source_pid),
            request.handle == params.handle,
    {
        DuplicateRequest { source_pid: i32_to_u32(params.source_pid), handle: params.handle }
    }

    /// Takes in a texture event, after the duplication of
    /// `refresh_request` was tried. An error of the duplication is handed
    /// back and leaves the synchronizer as it was.
    pub fn refresh(
        &mut self,
        params: OverlayTextureEventParams,
        duplicated: Result<usize, HandleError>,
    ) -> (step: Result<RefreshStep, HandleError>)
        ensures
            final(self)@ == old(self)@.refreshed(params, duplicated),
            step == match duplicated {
                Err(error) => Err::<RefreshStep, HandleError>(error),
                Ok(_) => Ok(
                    if old(self)@.handle != 0 {
                        RefreshStep::Close(old(self)@.handle)
                    } else {
                        RefreshStep::Done
                    },
                ),
            },
    {
        match duplicated {
            Err(error) => Err(error),
            Ok(duplicate) => {
                let incoming = Incoming {
                    handle: duplicate,
                    dimensions: Dimensions { height: params.height, width: params.width },
                    size: params.size,
                };
                // this doesn't do anything if its already null.
                self.state.texture = None;
                if self.state.handle != 0 {
                    self.state.incoming = Some(incoming);
                    Ok(RefreshStep::Close(self.state.handle))
                } else {
                    self.install(incoming);
                    Ok(RefreshStep::Done)
                }
            },
        }
    }

    fn install(&mut self, incoming: Incoming)
        ensures
            final(self)@ == old(self)@.installed(incoming),
    {
        self.state.handle = incoming.handle;
        self.state.dimensions = incoming.dimensions;
        self.state.size = incoming.size;
        self.state.incoming = None;
    }

    /// Completes a refresh that had a handle to close. An error of the
    /// close is handed back; the handle owned so far then stays.
    pub fn finish_refresh(&mut self, closed: Result<(), HandleError>) -> (done: Result<
        (),
        HandleError,
    >)
        ensures
            final(self)@ == old(self)@.refresh_finished(closed),
            done == if old(self)@.incoming.is_some() {
                closed
            } else {
                Ok(())
            },
    {
        match self.state.incoming {
            None => Ok(()),
            Some(incoming) => {
                if closed.is_ok() {
                    self.install(incoming);
                } else {
                    self.state.incoming = None;
                }
                closed
            },
        }
    }

    /// Called every frame before painting. Where the texture is imported
    /// for `window` and `context` there is nothing to do. Otherwise what
    /// is imported is dropped and, where the context has the extensions
    /// that the import needs, the import is asked for.
    pub fn prepare_paint(&mut self, window: usize, context: usize, extensions_loaded: bool) -> (plan:
        Result<PaintPlan, RenderError>)
        ensures
            plan == old(self)@.plan(window, context, extensions_loaded),
            final(self)@ == old(self)@.prepared(window, context),
    {
        if self.state.texture.is_some() && self.state.window == window && self.state.context
            == context {
            return Ok(PaintPlan::Ready);
        }
        self.state.texture = None;
        if !extensions_loaded {
            return Err(
                RenderError::OpenGLInternalError(
                    OpenGLRenderError::MissingExtensionError(
                        "GL_EXT_memory_object_win32, GL_EXT_direct_state_access",
                    ),
                ),
            );
        }
        Ok(
            PaintPlan::Import(
                ImportRequest {
                    handle: self.state.handle,
                    size: self.state.size,
                    dimensions: self.state.dimensions,
                },
            ),
        )
    }

    /// Takes in the outcome of the import that `prepare_paint` asked
    /// for: the texture, or `None` where the keyed mutex could not be
    /// acquired. The synchronizer then stays without a texture, so that
    /// the next frame tries again.
    pub fn finish_import(&mut self, window: usize, context: usize, outcome: Option<GlSharedTexture>) -> (ready:
        Result<(), RenderError>)
        ensures
            final(self)@ == old(self)@.import_finished(window, context, outcome),
            ready == match outcome {
                Some(_) => Ok::<(), RenderError>(()),
                None => Err(RenderError::OverlayMutexNotReady),
            },
    {
        match outcome {
            Some(texture) => {
                self.state.texture = Some(texture);
                self.state.window = window;
                self.state.context = context;
                Ok(())
            },
            None => Err(RenderError::OverlayMutexNotReady),
        }
    }

    /// The window to draw: the imported texture at the producer's extent.
    pub fn paint(&self) -> (window: Option<OverlayWindow>)
        ensures
            window == match self@.texture {
                Some(texture) => Some(
                    OverlayWindow { texture: texture.texture as usize, size: self@.dimensions },
                ),
                None => None,
            },
    {
        match self.state.texture {
            Some(texture) => Some(
                OverlayWindow::new(texture.texture as usize, self.state.dimensions),
            ),
            None => None,
        }
    }
}

/// Resize detection. The extent that sizes are matched against changes
/// with a texture event that takes effect and with nothing else: neither
/// a failed duplication, nor `prepare_paint`, nor an import touches it.
/// Once an event has taken effect, the sizes that match are exactly the
/// extent that the event gave.
pub proof fn lemma_resize_detection(
    state: OverlayState,
    params: OverlayTextureEventParams,
    duplicate: usize,
    size: Dimensions,
)
    ensures
        state.refreshed(params, Ok(duplicate)).refresh_finished(Ok(())).dimensions == size <==> (
        params.width == size.width && params.height == size.height),
        forall|error: HandleError|
            (#[trigger] state.refreshed(params, Err(error))).dimensions == state.dimensions,
        forall|window: usize, context: usize|
            (#[trigger] state.prepared(window, context)).dimensions == state.dimensions,
        forall|window: usize, context: usize, outcome: Option<GlSharedTexture>|
            (#[trigger] state.import_finished(window, context, outcome)).dimensions
                == state.dimensions,
        state.invalidated().dimensions == state.dimensions,
{
}

/// Invalidate on refresh. Once a texture event has brought a duplicate,
/// nothing is left imported: whichever window and context the next
/// `prepare_paint` is for, and whether or not the old handle could be
/// closed in between, it asks for the full import again wherever the
/// extensions allow one.
pub proof fn lemma_refresh_invalidates(
    state: OverlayState,
    params: OverlayTextureEventParams,
    duplicate: usize,
    closed: Result<(), HandleError>,
    window: usize,
    context: usize,
)
    ensures
        state.refreshed(params, Ok(duplicate)).phase() != OverlayPhase::Imported,
        state.refreshed(params, Ok(duplicate)).plan(window, context, true) matches Ok(
            PaintPlan::Import(_),
        ),
        state.refreshed(params, Ok(duplicate)).refresh_finished(closed).plan(
            window,
            context,
            true,
        ) matches Ok(PaintPlan::Import(_)),
        state.handle == 0 || closed.is_ok() ==> state.refreshed(
            params,
            Ok(duplicate),
        ).refresh_finished(closed).plan(window, context, true) == Ok::<PaintPlan, RenderError>(
            PaintPlan::Import(
                ImportRequest {
                    handle: duplicate,
                    size: params.size,
                    dimensions: Dimensions { width: params.width, height: params.height },
                },
            ),
        ),
{
}

/// `prepare_paint` is idempotent once the texture is imported: for the
/// window and context it was imported for, it asks nothing and changes
/// nothing; a change of either asks for the import again.
pub proof fn lemma_prepare_paint_idempotent(
    state: OverlayState,
    window: usize,
    context: usize,
    texture: GlSharedTexture,
    extensions_loaded: bool,
    other_window: usize,
    other_context: usize,
)
    ensures
        state.import_finished(window, context, Some(texture)).plan(
            window,
            context,
            extensions_loaded,
        ) == Ok::<PaintPlan, RenderError>(PaintPlan::Ready),
        state.import_finished(window, context, Some(texture)).prepared(window, context)
            == state.import_finished(window, context, Some(texture)),
        other_window != window || other_context != context ==> state.import_finished(
            window,
            context,
            Some(texture),
        ).plan(other_window, other_context, true) matches Ok(PaintPlan::Import(_)),
{
}

} // verus!
