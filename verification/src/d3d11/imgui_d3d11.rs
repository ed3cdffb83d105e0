//! The UI renderer of the Direct3D 11 backend: when its device objects
//! and its render target view have to be built again.

use crate::common::RenderError;
use vstd::prelude::*;

verus! {

/// What the controller knows.
#[derive(PartialEq, Eq, Copy, Clone, Debug, Structural)]
pub struct ControllerState {
    /// Whether the renderer is built.
    pub renderer: bool,
    /// Whether the render target view is held.
    pub rtv: bool,
    /// The output window that both were built for.
    pub window: usize,
}

/// What `prepare_paint` asks of the device.
#[derive(PartialEq, Eq, Copy, Clone, Debug, Structural)]
pub enum ControllerPlan {
    /// Nothing more: the UI can be drawn.
    Ready,
    /// Build the renderer on the swap chain's device; report the outcome
    /// with `renderer_initialized`.
    InitRenderer,
    /// Get or create the render target view; report the outcome with
    /// `rtv_initialized`.
    InitRtv,
}

impl ControllerState {
    pub open spec fn initial() -> ControllerState {
        ControllerState { renderer: false, rtv: false, window: 0 }
    }

    /// The state with everything dropped that was built for another
    /// window than `output_window`.
    pub open spec fn checked(self, output_window: usize) -> ControllerState {
        if output_window != self.window {
            ControllerState { renderer: false, rtv: false, ..self }
        } else {
            self
        }
    }

    /// What is missing before the UI can be drawn, the renderer first.
    pub open spec fn missing(self) -> ControllerPlan {
        if !self.renderer {
            ControllerPlan::InitRenderer
        } else if !self.rtv {
            ControllerPlan::InitRtv
        } else {
            ControllerPlan::Ready
        }
    }

    /// The state once nothing is missing any more: the window is noted.
    pub open spec fn settled(self, output_window: usize) -> ControllerState {
        if self.missing() == ControllerPlan::Ready {
            ControllerState { window: output_window, ..self }
        } else {
            self
        }
    }

    /// The state after `prepare_paint`.
    pub open spec fn prepared(self, output_window: usize) -> ControllerState {
        self.checked(output_window).settled(output_window)
    }

    /// The state after the renderer was built, or could not be.
    pub open spec fn renderer_finished(self, output_window: usize, built: Result<(), i32>) -> ControllerState {
        match built {
            Ok(_) => ControllerState { renderer: true, window: output_window, ..self }.settled(
                output_window,
            ),
            Err(_) => self,
        }
    }

    /// The state after the render target view was got, or could not be.
    pub open spec fn rtv_finished(self, output_window: usize, got: Result<(), i32>) -> ControllerState {
        match got {
            Ok(_) => ControllerState { rtv: true, ..self }.settled(output_window),
            Err(_) => self,
        }
    }
}

/// The state of the UI renderer.
pub struct Direct3D11ImguiController {
    state: ControllerState,
}

impl View for Direct3D11ImguiController {
    type V = ControllerState;

    closed spec fn view(&self) -> ControllerState {
        self.state
    }
}

impl Direct3D11ImguiController {
    pub fn new() -> (controller: Direct3D11ImguiController)
        ensures
            controller@ == ControllerState::initial(),
    {
        Direct3D11ImguiController { state: ControllerState { renderer: false, rtv: false, window: 0 } }
    }

    pub fn renderer_ready(&self) -> (ready: bool)
        ensures
            ready == self@.renderer,
    {
        self.state.renderer
    }

    pub fn rtv_ready(&self) -> (ready: bool)
        ensures
            ready == self@.rtv,
    {
        self.state.rtv
    }

    pub fn invalidate_renderer(&mut self)
        ensures
            final(self)@ == (ControllerState { renderer: false, ..old(self)@ }),
    {
        self.state.renderer = false;
    }

    pub fn invalidate_rtv(&mut self)
        ensures
            final(self)@ == (ControllerState { rtv: false, ..old(self)@ }),
    {
        self.state.rtv = false;
    }

    fn settle(&mut self, output_window: usize) -> (plan: ControllerPlan)
        ensures
            plan == old(self)@.missing(),
            final(self)@ == old(self)@.settled(output_window),
    {
        if !self.state.renderer {
            ControllerPlan::InitRenderer
        } else if !self.state.rtv {
            ControllerPlan::InitRtv
        } else {
            self.state.window = output_window;
            ControllerPlan::Ready
        }
    }

    /// Called every frame before the UI is drawn. A change of the output
    /// window means that the render context changed: renderer and render
    /// target view are then dropped. What is missing is asked for, the
    /// renderer first.
    pub fn prepare_paint(&mut self, output_window: usize) -> (plan: ControllerPlan)
        ensures
            plan == old(self)@.checked(output_window).missing(),
            final(self)@ == old(self)@.prepared(output_window),
    {
        if output_window != self.state.window {
            self.invalidate_renderer();
            self.invalidate_rtv();
        }
        self.settle(output_window)
    }

    /// Takes in the outcome of building the renderer, an `HRESULT` where
    /// it failed, and says what is missing next.
    pub fn renderer_initialized(&mut self, output_window: usize, built: Result<(), i32>) -> (plan:
        Result<ControllerPlan, RenderError>)
        ensures
            final(self)@ == old(self)@.renderer_finished(output_window, built),
            plan == match built {
                Ok(_) => Ok::<ControllerPlan, RenderError>(
                    ControllerState {
                        renderer: true,
                        window: output_window,
                        ..old(self)@
                    }.missing(),
                ),
                Err(code) => Err(RenderError::DXGIInternalError(code)),
            },
    {
        match built {
            Ok(_) => {
                self.state.renderer = true;
                self.state.window = output_window;
                Ok(self.settle(output_window))
            },
            Err(code) => Err(RenderError::DXGIInternalError(code)),
        }
    }

    /// Takes in the outcome of getting the render target view, an
    /// `HRESULT` where it failed, and says what is missing next.
    pub fn rtv_initialized(&mut self, output_window: usize, got: Result<(), i32>) -> (plan: Result<
        ControllerPlan,
        RenderError,
    >)
        ensures
            final(self)@ == old(self)@.rtv_finished(output_window, got),
            plan == match got {
                Ok(_) => Ok::<ControllerPlan, RenderError>(
                    ControllerState { rtv: true, ..old(self)@ }.missing(),
                ),
                Err(code) => Err(RenderError::DXGIInternalError(code)),
            },
    {
        match got {
            Ok(_) => {
                self.state.rtv = true;
                Ok(self.settle(output_window))
            },
            Err(code) => Err(RenderError::DXGIInternalError(code)),
        }
    }

    /// Whether a frame of the UI can be rendered: only with a renderer.
    pub fn frame(&self) -> (render: Result<(), RenderError>)
        ensures
            render == if self@.renderer {
                Ok::<(), RenderError>(())
            } else {
                Err(RenderError::RendererNotReady)
            },
    {
        if self.state.renderer {
            Ok(())
        } else {
            Err(RenderError::RendererNotReady)
        }
    }
}

} // verus!
