//! The UI renderer of the WGL backend: when its device objects have to
//! be built again.

use crate::common::{OpenGLRenderError, RenderError};
use vstd::prelude::*;

verus! {

/// What the controller knows.
#[derive(PartialEq, Eq, Copy, Clone, Debug, Structural)]
pub struct ControllerState {
    /// Whether the renderer is built.
    pub renderer: bool,
    /// The window that it was built for.
    pub window: usize,
    /// The OpenGL context that it was built in.
    pub context: usize,
}

impl ControllerState {
    pub open spec fn initial() -> ControllerState {
        ControllerState { renderer: false, window: 0, context: 0 }
    }

    /// The state with the renderer dropped where it was built for another
    /// window or in another context.
    pub open spec fn checked(self, window: usize, context: usize) -> ControllerState {
        if window != self.window || context != self.context {
            ControllerState { renderer: false, ..self }
        } else {
            self
        }
    }

    /// The state after `prepare_paint`: with a renderer at hand, window
    /// and context are noted.
    pub open spec fn prepared(self, window: usize, context: usize) -> ControllerState {
        if self.checked(window, context).renderer {
            ControllerState { window, context, ..self }
        } else {
            self.checked(window, context)
        }
    }

    /// The state after the renderer was built, or could not be.
    pub open spec fn renderer_finished(
        self,
        window: usize,
        context: usize,
        built: Result<(), OpenGLRenderError>,
    ) -> ControllerState {
        match built {
            Ok(_) => ControllerState { renderer: true, window, context },
            Err(_) => self,
        }
    }
}

/// The state of the UI renderer.
pub struct WGLImguiController {
    state: ControllerState,
}

impl View for WGLImguiController {
    type V = ControllerState;

    closed spec fn view(&self) -> ControllerState {
        self.state
    }
}

impl WGLImguiController {
    pub fn new() -> (controller: WGLImguiController)
        ensures
            controller@ == ControllerState::initial(),
    {
        WGLImguiController { state: ControllerState { renderer: false, window: 0, context: 0 } }
    }

    pub fn renderer_ready(&self) -> (ready: bool)
        ensures
            ready == self@.renderer,
    {
        self.state.renderer
    }

    pub fn invalidate_renderer(&mut self)
        ensures
            final(self)@ == (ControllerState { renderer: false, ..old(self)@ }),
    {
        self.state.renderer = false;
    }

    /// Called every frame before the UI is drawn. A change of the window
    /// or of the OpenGL context means that the render context changed:
    /// the renderer is then dropped. Returns whether the renderer has to
    /// be built; the outcome of that is reported with
    /// `renderer_initialized`.
    pub fn prepare_paint(&mut self, window: usize, context: usize) -> (build: bool)
        ensures
            build == !old(self)@.checked(window, context).renderer,
            final(self)@ == old(self)@.prepared(window, context),
    {
        if window != self.state.window || context != self.state.context {
            self.invalidate_renderer();
        }
        if !self.state.renderer {
            return true;
        }
        self.state.window = window;
        self.state.context = context;
        false
    }

    /// Takes in the outcome of building the renderer.
    pub fn renderer_initialized(
        &mut self,
        window: usize,
        context: usize,
        built: Result<(), OpenGLRenderError>,
    ) -> (ready: Result<(), RenderError>)
        ensures
            final(self)@ == old(self)@.renderer_finished(window, context, built),
            ready == match built {
                Ok(_) => Ok::<(), RenderError>(()),
                Err(error) => Err(RenderError::OpenGLInternalError(error)),
            },
    {
        match built {
            Ok(_) => {
                self.state.renderer = true;
                self.state.window = window;
                self.state.context = context;
                Ok(())
            },
            Err(error) => Err(RenderError::OpenGLInternalError(error)),
        }
    }

    /// Whether a frame of the UI can be rendered: only with a renderer.
    pub fn frame(&self) -> (render: Result<(), RenderError>)
        ensures
            render == if self@.renderer {
                Ok::<(), RenderError>(())
            } else {
                Err(RenderError::RendererNotReady)
            },
    {
        if self.state.renderer {
            Ok(())
        } else {
            Err(RenderError::RendererNotReady)
        }
    }
}

} // verus!
