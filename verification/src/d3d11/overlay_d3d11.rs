//! The overlay texture of the Direct3D 11 backend: a texture that the
//! producer shares by handle and that is opened on the host's device.
//!
//! The synchronizer decides and keeps the books; the caller makes the
//! system and device calls that it asks for and reports how they went.

use crate::common::{
    Dimensions, DuplicateRequest, OverlayPhase, OverlayWindow, RefreshStep, RenderError, SyncRequest,
};
use crate::ipc::cmd::{i32_bits, i32_to_u32, OverlayTextureEventParams};
use crate::win32::handle::HandleError;
use vstd::prelude::*;

verus! {

/// What `prepare_paint` asks of the device.
#[derive(PartialEq, Eq, Copy, Clone, Debug, Structural)]
pub enum PaintPlan {
    /// Nothing: the texture is opened for this window.
    Ready,
    /// Open the shared handle as a texture, query its keyed mutex, read
    /// its extent and create a view of it; report the outcome with
    /// `finish_import`.
    Import(usize),
}

/// A shared texture as the device opened it.
#[derive(PartialEq, Eq, Copy, Clone, Debug, Structural)]
pub struct ImportedTexture {
    /// The identifier under which the view is drawn.
    pub texture: usize,
    pub width: u32,
    pub height: u32,
}

/// The step at which opening the shared texture failed.
#[derive(PartialEq, Eq, Copy, Clone, Debug, Structural)]
pub enum ImportError {
    /// The handle could not be opened as a texture; with the `HRESULT`.
    SharedResource(i32),
    /// The texture has no keyed mutex.
    KeyedMutex,
    /// No view of the texture could be created; with the `HRESULT`.
    ShaderResourceView(i32),
}

/// A keyed mutex that is held. Whoever holds it releases it under
/// `release_key` on every path out of the scope that acquired it.
#[derive(PartialEq, Eq, Copy, Clone, Debug, Structural)]
pub struct KeyedMutexHandle {
    release_key: u64,
}

impl KeyedMutexHandle {
    /// The key under which the mutex is released.
    pub closed spec fn spec_release_key(self) -> u64 {
        self.release_key
    }

    /// The key under which the mutex is released.
    #[verifier::when_used_as_spec(spec_release_key)]
    pub fn release_key(self) -> (key: u64)
        ensures
            key == self.spec_release_key(),
    {
        self.release_key
    }

    /// The guard of this backend: it releases under key `0`.
    pub closed spec fn held() -> KeyedMutexHandle {
        KeyedMutexHandle { release_key: 0 }
    }

    /// The guard of an acquisition under `key`, where there is one:
    /// `acquired` tells whether the mutex was got. Whatever key it was
    /// acquired under, this backend releases it under key `0`.
    pub fn new(acquired: bool, key: u64) -> (guard: Option<KeyedMutexHandle>)
        ensures
            guard == if acquired {
                Some(KeyedMutexHandle::held())
            } else {
                None
            },
            KeyedMutexHandle::held().release_key() == 0,
    {
        if acquired {
            Some(KeyedMutexHandle { release_key: 0 })
        } else {
            None
        }
    }
}

/// What the synchronizer knows.
#[derive(PartialEq, Eq, Copy, Clone, Debug, Structural)]
pub struct OverlayState {
    /// The duplicate of the producer's handle that this process owns,
    /// `0` for none.
    pub handle: usize,
    /// The output window that the texture was opened for.
    pub window: usize,
    /// The extent of the producer's texture as last read from it.
    pub dimensions: Dimensions,
    /// The opened texture.
    pub texture: Option<usize>,
    /// A fresh duplicate that takes the place of `handle` once that is
    /// closed.
    pub incoming: Option<usize>,
}

impl OverlayState {
    /// The state before any handle has arrived.
    pub open spec fn initial() -> OverlayState {
        OverlayState {
            handle: 0,
            window: 0,
            dimensions: Dimensions { width: 0, height: 0 },
            texture: None,
            incoming: None,
        }
    }

    pub open spec fn phase(self) -> OverlayPhase {
        if self.texture.is_some() {
            OverlayPhase::Imported
        } else if self.handle != 0 {
            OverlayPhase::HandleReceived
        } else {
            OverlayPhase::Uninitialized
        }
    }

    /// The state with the opened texture dropped.
    pub open spec fn invalidated(self) -> OverlayState {
        OverlayState { texture: None, ..self }
    }

    /// The state after a refresh whose duplication went as `duplicated`
    /// tells. A failed duplication changes nothing. A duplicate drops the
    /// opened texture, which belongs to the stale handle; it takes the
    /// place of the handle at once where none is owned, and waits for
    /// the owned one to be closed otherwise.
    pub open spec fn refreshed(self, duplicated: Result<usize, HandleError>) -> OverlayState {
        match duplicated {
            Err(_) => self,
            Ok(duplicate) => if self.handle != 0 {
                OverlayState { texture: None, incoming: Some(duplicate), ..self }
            } else {
                OverlayState { texture: None, handle: duplicate, incoming: None, ..self }
            },
        }
    }

    /// The state after the owned handle was closed, or could not be: the
    /// duplicate that waited takes its place, or is given up.
    pub open spec fn refresh_finished(self, closed: Result<(), HandleError>) -> OverlayState {
        match self.incoming {
            None => self,
            Some(duplicate) => match closed {
                Ok(_) => OverlayState { handle: duplicate, incoming: None, ..self },
                Err(_) => OverlayState { incoming: None, ..self },
            },
        }
    }

    /// What `prepare_paint` asks for an output window.
    pub open spec fn plan(self, output_window: usize) -> PaintPlan {
        if self.texture.is_some() && self.window == output_window {
            PaintPlan::Ready
        } else {
            PaintPlan::Import(self.handle)
        }
    }

    /// The state after `prepare_paint`: untouched where the texture is
    /// opened for the window, without a texture otherwise.
    pub open spec fn prepared(self, output_window: usize) -> OverlayState {
        if self.texture.is_some() && self.window == output_window {
            self
        } else {
            self.invalidated()
        }
    }

    /// The state after the device reported on the import. The producer's
    /// texture is authoritative for the extent.
    pub open spec fn import_finished(
        self,
        output_window: usize,
        outcome: Result<ImportedTexture, ImportError>,
    ) -> OverlayState {
        match outcome {
            Ok(imported) => OverlayState {
                texture: Some(imported.texture),
                dimensions: Dimensions { width: imported.width, height: imported.height },
                window: output_window,
                ..self
            },
            Err(_) => self,
        }
    }
}

/// The typed error of a failed import.
pub open spec fn import_error(handle: usize, error: ImportError) -> RenderError {
    match error {
        ImportError::SharedResource(code) => RenderError::OverlayHandleError(handle, code),
        ImportError::KeyedMutex => RenderError::OverlayMutexNotReady,
        ImportError::ShaderResourceView(code) => RenderError::DXGIInternalError(code),
    }
}

/// The synchronizer of the shared overlay texture.
pub struct Direct3D11Overlay {
    state: OverlayState,
}

impl View for Direct3D11Overlay {
    type V = OverlayState;

    closed spec fn view(&self) -> OverlayState {
        self.state
    }
}

impl Direct3D11Overlay {
    pub fn new() -> (overlay: Direct3D11Overlay)
        ensures
            overlay@ == OverlayState::initial(),
    {
        Direct3D11Overlay {
            state: OverlayState {
                handle: 0,
                window: 0,
                dimensions: Dimensions::new(0, 0),
                texture: None,
                incoming: None,
            },
        }
    }

    /// Whether a shared handle is owned.
    pub fn ready_to_initialize(&self) -> (ready: bool)
        ensures
            ready <==> self@.handle != 0,
    {
        self.state.handle != 0
    }

    /// Whether the shared texture is opened.
    pub fn ready_to_paint(&self) -> (ready: bool)
        ensures
            ready <==> self@.phase() == OverlayPhase::Imported,
    {
        self.state.texture.is_some()
    }

    pub fn phase(&self) -> (phase: OverlayPhase)
        ensures
            phase == self@.phase(),
    {
        if self.state.texture.is_some() {
            OverlayPhase::Imported
        } else if self.state.handle != 0 {
            OverlayPhase::HandleReceived
        } else {
            OverlayPhase::Uninitialized
        }
    }

    /// The extent of the producer's texture as last read from it.
    pub fn dimensions(&self) -> (dimensions: Dimensions)
        ensures
            dimensions == self@.dimensions,
    {
        self.state.dimensions
    }

    /// Whether the producer renders at `size`.
    pub fn size_matches_viewpoint(&self, size: &Dimensions) -> (matches: bool)
        ensures
            matches <==> self@.dimensions == *size,
    {
        self.state.dimensions.width == size.width && self.state.dimensions.height == size.height
    }

    /// The acquisition that has to come before any read of the texture:
    /// under key `0`, waiting without limit. `None` where no texture is
    /// opened.
    pub fn acquire_sync(&self) -> (request: Option<SyncRequest>)
        ensures
            request == if self@.texture.is_some() {
                Some(SyncRequest { key: 0, timeout_ms: u32::MAX })
            } else {
                None
            },
    {
        if self.state.texture.is_some() {
            Some(SyncRequest { key: 0, timeout_ms: u32::MAX })
        } else {
            None
        }
    }

    /// Drops the opened texture.
    pub fn invalidate(&mut self)
        ensures
            final(self)@ == old(self)@.invalidated(),
    {
        self.state.texture = None;
    }

    /// The duplication that a texture event asks for.
    pub fn refresh_request(params: &OverlayTextureEventParams) -> (request: DuplicateRequest)
        ensures
            request.source_pid == i32_bits(params.source_pid),
            request.handle == params.handle,
    {
        DuplicateRequest { source_pid: i32_to_u32(params.source_pid), handle: params.handle }
    }

    /// Takes in a texture event, after the duplication of
    /// `refresh_request` was tried. An error of the duplication is handed
    /// back and leaves the synchronizer as it was.
    pub fn refresh(&mut self, duplicated: Result<usize, HandleError>) -> (step: Result<
        RefreshStep,
        HandleError,
    >)
        ensures
            final(self)@ == old(self)@.refreshed(duplicated),
            step == match duplicated {
                Err(error) => Err::<RefreshStep, HandleError>(error),
                Ok(_) => Ok(
                    if old(self)@.handle != 0 {
                        RefreshStep::Close(old(self)@.handle)
                    } else {
                        RefreshStep::Done
                    },
                ),
            },
    {
        match duplicated {
            Err(error) => Err(error),
            Ok(duplicate) => {
                // this doesn't do anything if its already null.
                self.state.texture = None;
                if self.state.handle != 0 {
                    self.state.incoming = Some(duplicate);
                    Ok(RefreshStep::Close(self.state.handle))
                } else {
                    self.state.handle = duplicate;
                    self.state.incoming = None;
                    Ok(RefreshStep::Done)
                }
            },
        }
    }

    /// Completes a refresh that had a handle to close. An error of the
    /// close is handed back; the handle owned so far then stays.
    pub fn finish_refresh(&mut self, closed: Result<(), HandleError>) -> (done: Result<
        (),
        HandleError,
    >)
        ensures
            final(self)@ == old(self)@.refresh_finished(closed),
            done == if old(self)@.incoming.is_some() {
                closed
            } else {
                Ok(())
            },
    {
        match self.state.incoming {
            None => Ok(()),
            Some(duplicate) => {
                self.state.incoming = None;
                if closed.is_ok() {
                    self.state.handle = duplicate;
                }
                closed
            },
        }
    }

    /// Called every frame before painting. Where the texture is opened
    /// for `output_window` there is nothing to do; otherwise what is
    /// opened is dropped and the import is asked for.
    pub fn prepare_paint(&mut self, output_window: usize) -> (plan: PaintPlan)
        ensures
            plan == old(self)@.plan(output_window),
            final(self)@ == old(self)@.prepared(output_window),
    {
        if self.state.texture.is_some() && self.state.window == output_window {
            return PaintPlan::Ready;
        }
        self.state.texture = None;
        PaintPlan::Import(self.state.handle)
    }

    /// Takes in the outcome of the import that `prepare_paint` asked
    /// for. A failure is reported as a typed error and leaves the
    /// synchronizer without a texture, so that the next frame tries
    /// again.
    pub fn finish_import(
        &mut self,
        output_window: usize,
        outcome: Result<ImportedTexture, ImportError>,
    ) -> (ready: Result<(), RenderError>)
        ensures
            final(self)@ == old(self)@.import_finished(output_window, outcome),
            ready == match outcome {
                Ok(_) => Ok::<(), RenderError>(()),
                Err(error) => Err(import_error(old(self)@.handle, error)),
            },
    {
        match outcome {
            Ok(imported) => {
                self.state.texture = Some(imported.texture);
                self.state.dimensions = Dimensions::new(imported.width, imported.height);
                self.state.window = output_window;
                Ok(())
            },
            Err(ImportError::SharedResource(code)) => Err(
                RenderError::OverlayHandleError(self.state.handle, code),
            ),
            Err(ImportError::KeyedMutex) => Err(RenderError::OverlayMutexNotReady),
            Err(ImportError::ShaderResourceView(code)) => Err(RenderError::DXGIInternalError(code)),
        }
    }

    /// The window to draw: the opened texture at the producer's extent.
    pub fn paint(&self) -> (window: Option<OverlayWindow>)
        ensures
            window == match self@.texture {
                Some(texture) => Some(OverlayWindow { texture, size: self@.dimensions }),
                None => None,
            },
    {
        match self.state.texture {
            Some(texture) => Some(OverlayWindow::new(texture, self.state.dimensions)),
            None => None,
        }
    }
}

/// Resize detection. The extent that sizes are matched against changes
/// with a successful import and with nothing else: neither a texture
/// event, nor `prepare_paint`, nor a failed import touches it. After an
/// import the sizes that match are exactly the extent of the imported
/// texture.
pub proof fn lemma_resize_detection(
    state: OverlayState,
    size: Dimensions,
    output_window: usize,
    imported: ImportedTexture,
)
    ensures
        state.import_finished(output_window, Ok(imported)).dimensions == size <==> (imported.width
            == size.width && imported.height == size.height),
        forall|error: ImportError|
            (#[trigger] state.import_finished(output_window, Err(error))).dimensions
                == state.dimensions,
        forall|duplicated: Result<usize, HandleError>|
            (#[trigger] state.refreshed(duplicated)).dimensions == state.dimensions,
        forall|closed: Result<(), HandleError>|
            (#[trigger] state.refresh_finished(closed)).dimensions == state.dimensions,
        state.prepared(output_window).dimensions == state.dimensions,
        state.invalidated().dimensions == state.dimensions,
{
}

/// Invalidate on refresh. Once a texture event has brought a duplicate,
/// nothing is left opened: whichever window the next `prepare_paint` is
/// for, and whether or not the old handle could be closed in between, it
/// asks for the full import again, and of the new handle where that is in
/// place.
pub proof fn lemma_refresh_invalidates(
    state: OverlayState,
    duplicate: usize,
    closed: Result<(), HandleError>,
    output_window: usize,
)
    ensures
        state.refreshed(Ok(duplicate)).phase() != OverlayPhase::Imported,
        state.refreshed(Ok(duplicate)).plan(output_window) is Import,
        state.refreshed(Ok(duplicate)).refresh_finished(closed).plan(output_window) is Import,
        state.handle == 0 || closed.is_ok() ==> state.refreshed(Ok(duplicate)).refresh_finished(
            closed,
        ).plan(output_window) == PaintPlan::Import(duplicate),
{
}

/// `prepare_paint` is idempotent once the texture is opened: for the
/// window it was opened for, it asks nothing and changes nothing.
pub proof fn lemma_prepare_paint_idempotent(
    state: OverlayState,
    output_window: usize,
    imported: ImportedTexture,
)
    ensures
        state.import_finished(output_window, Ok(imported)).phase() == OverlayPhase::Imported,
        state.import_finished(output_window, Ok(imported)).plan(output_window)
            == PaintPlan::Ready,
        state.import_finished(output_window, Ok(imported)).prepared(output_window)
            == state.import_finished(output_window, Ok(imported)),
        forall|other: usize|
            other != output_window ==> state.import_finished(output_window, Ok(imported)).plan(
                other,
            ) is Import,
{
}

} // verus!
