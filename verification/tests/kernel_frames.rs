use snowflake_ingame::common::{
    Dimensions, DuplicateRequest, OpenGLRenderError, OverlayWindow, RenderError, SyncRequest,
};
use snowflake_ingame::d3d11::kernel_d3d11::{
    Direct3D11Kernel, PresentEvent, PresentRequest, PresentStep,
};
use snowflake_ingame::d3d11::overlay_d3d11::{ImportError, ImportedTexture, KeyedMutexHandle};
use snowflake_ingame::d3d11::hook_d3d11::Direct3D11HookContext;
use snowflake_ingame::hook::{Dispatch, HookChain, HookError};
use snowflake_ingame::wgl::hook_wgl::WGLHookContext;
use snowflake_ingame::ipc::cmd::{
    GameWindowCommand, GameWindowCommandParams, GameWindowCommandType, GameWindowMagic,
    OverlayTextureEventParams, Size,
};
use snowflake_ingame::kernel::common::FrameKernel;
use snowflake_ingame::wgl::kernel_wgl::{
    abs_diff, ClientArea, SwapEvent, SwapRequest, SwapStep, WGLKernel,
};
use snowflake_ingame::wgl::overlay_wgl::{
    GlSharedTexture, ImportRequest, KeyedMutexHandle as GlKeyedMutexHandle,
};
use snowflake_ingame::win32::handle::HandleError;

fn overlay_event(handle: usize) -> GameWindowCommand {
    GameWindowCommand {
        magic: GameWindowMagic(GameWindowMagic::MAGIC),
        ty: GameWindowCommandType(GameWindowCommandType::OVERLAY),
        params: GameWindowCommandParams::OverlayEvent(OverlayTextureEventParams {
            handle,
            source_pid: 4242,
            width: 800,
            height: 600,
            size: 1_920_000,
            alignment: 4096,
            sync_handle: 0,
        }),
    }
}

fn present(next: PresentRequest) -> PresentStep {
    PresentStep { logged: None, next }
}

fn swap(next: SwapRequest) -> SwapStep {
    SwapStep { logged: None, next }
}

fn screen() -> Dimensions {
    Dimensions::new(800, 600)
}

/// Runs the first frame of a kernel up to the end, with everything going
/// well, and returns how often the import was asked for.
fn first_present(kernel: &mut Direct3D11Kernel) -> u32 {
    let mut imports = 0;
    assert_eq!(kernel.present_impl(PresentEvent::Begin), present(PresentRequest::Receive));
    assert_eq!(
        kernel.present_impl(PresentEvent::Received(Some(overlay_event(0x500)))),
        present(PresentRequest::Duplicate(DuplicateRequest { source_pid: 4242, handle: 0x500 }))
    );
    assert_eq!(
        kernel.present_impl(PresentEvent::Duplicated(Ok(0x700))),
        present(PresentRequest::Measure)
    );
    assert_eq!(
        kernel.present_impl(PresentEvent::Measured(Ok((screen(), 77)))),
        present(PresentRequest::Send(GameWindowCommand::window_resize(&Size::new(800, 600))))
    );
    let step = kernel.present_impl(PresentEvent::Sent(true));
    assert_eq!(step, present(PresentRequest::Import(0x700)));
    imports += 1;
    assert_eq!(
        kernel.present_impl(PresentEvent::Imported(Ok(ImportedTexture {
            texture: 9,
            width: 800,
            height: 600
        }))),
        present(PresentRequest::InitRenderer)
    );
    assert_eq!(
        kernel.present_impl(PresentEvent::RendererInitialized(Ok(()))),
        present(PresentRequest::InitRtv)
    );
    assert_eq!(
        kernel.present_impl(PresentEvent::RtvInitialized(Ok(()))),
        present(PresentRequest::Acquire(SyncRequest { key: 0, timeout_ms: u32::MAX }))
    );
    assert_eq!(
        kernel.present_impl(PresentEvent::Acquired(true)),
        present(PresentRequest::Paint {
            overlay: OverlayWindow::new(9, screen()),
            display: screen(),
            guard: KeyedMutexHandle::new(true, 0).unwrap(),
        })
    );
    assert_eq!(
        kernel.present_impl(PresentEvent::Painted(Ok(()))),
        present(PresentRequest::Finish(Ok(())))
    );
    imports
}

/// Runs a frame of a kernel that has everything at hand and returns how
/// often the import was asked for.
fn steady_present(kernel: &mut Direct3D11Kernel) -> u32 {
    assert_eq!(kernel.present_impl(PresentEvent::Begin), present(PresentRequest::Receive));
    assert_eq!(
        kernel.present_impl(PresentEvent::Received(None)),
        present(PresentRequest::Measure)
    );
    assert_eq!(
        kernel.present_impl(PresentEvent::Measured(Ok((screen(), 77)))),
        present(PresentRequest::Acquire(SyncRequest { key: 0, timeout_ms: u32::MAX }))
    );
    kernel.present_impl(PresentEvent::Acquired(true));
    assert_eq!(
        kernel.present_impl(PresentEvent::Painted(Ok(()))),
        present(PresentRequest::Finish(Ok(())))
    );
    0
}

#[test]
fn d3d11_first_frame_sets_everything_up() {
    let mut kernel = Direct3D11Kernel::new();
    assert_eq!(first_present(&mut kernel), 1);
}

#[test]
fn d3d11_steady_frames_import_nothing() {
    let mut kernel = Direct3D11Kernel::new();
    let mut imports = first_present(&mut kernel);
    for _ in 0..5 {
        imports += steady_present(&mut kernel);
    }
    assert_eq!(imports, 1);
}

#[test]
fn d3d11_texture_event_with_a_new_handle_imports_again() {
    let mut kernel = Direct3D11Kernel::new();
    first_present(&mut kernel);
    steady_present(&mut kernel);
    kernel.present_impl(PresentEvent::Begin);
    assert_eq!(
        kernel.present_impl(PresentEvent::Received(Some(overlay_event(0x501)))),
        present(PresentRequest::Duplicate(DuplicateRequest { source_pid: 4242, handle: 0x501 }))
    );
    assert_eq!(
        kernel.present_impl(PresentEvent::Duplicated(Ok(0x800))),
        present(PresentRequest::Close(0x700))
    );
    assert_eq!(
        kernel.present_impl(PresentEvent::Closed(Ok(()))),
        present(PresentRequest::Measure)
    );
    // The extent is still that of the old texture: no resize is sent.
    assert_eq!(
        kernel.present_impl(PresentEvent::Measured(Ok((screen(), 77)))),
        present(PresentRequest::Import(0x800))
    );
    assert_eq!(
        kernel.present_impl(PresentEvent::Imported(Ok(ImportedTexture {
            texture: 10,
            width: 800,
            height: 600
        }))),
        present(PresentRequest::Acquire(SyncRequest { key: 0, timeout_ms: u32::MAX }))
    );
}

#[test]
fn d3d11_frame_without_a_handle_ends_early() {
    let mut kernel = Direct3D11Kernel::new();
    kernel.present_impl(PresentEvent::Begin);
    kernel.present_impl(PresentEvent::Received(None));
    assert_eq!(
        kernel.present_impl(PresentEvent::Measured(Ok((Dimensions::new(0, 0), 77)))),
        present(PresentRequest::Finish(Err(RenderError::OverlayHandleNotReady)))
    );
    // With another extent the producer is told first.
    kernel.present_impl(PresentEvent::Begin);
    kernel.present_impl(PresentEvent::Received(None));
    assert_eq!(
        kernel.present_impl(PresentEvent::Measured(Ok((screen(), 77)))),
        present(PresentRequest::Send(GameWindowCommand::window_resize(&Size::new(800, 600))))
    );
    assert_eq!(
        kernel.present_impl(PresentEvent::Sent(true)),
        present(PresentRequest::Finish(Err(RenderError::OverlayHandleNotReady)))
    );
}

#[test]
fn d3d11_other_commands_are_drained_and_ignored() {
    let mut kernel = Direct3D11Kernel::new();
    kernel.present_impl(PresentEvent::Begin);
    assert_eq!(
        kernel.present_impl(PresentEvent::Received(Some(GameWindowCommand::handshake(5)))),
        present(PresentRequest::Measure)
    );
    // An overlay payload under another tag is no texture event.
    let mut mislabeled = overlay_event(0x500);
    mislabeled.ty = GameWindowCommandType(GameWindowCommandType::CURSOR);
    kernel.present_impl(PresentEvent::Measured(Err(-1)));
    kernel.present_impl(PresentEvent::Begin);
    assert_eq!(
        kernel.present_impl(PresentEvent::Received(Some(mislabeled))),
        present(PresentRequest::Measure)
    );
}

#[test]
fn d3d11_handle_errors_are_logged_and_the_frame_goes_on() {
    let mut kernel = Direct3D11Kernel::new();
    kernel.present_impl(PresentEvent::Begin);
    kernel.present_impl(PresentEvent::Received(Some(overlay_event(0x500))));
    assert_eq!(
        kernel.present_impl(PresentEvent::Duplicated(Err(HandleError::InvalidProcess))),
        PresentStep { logged: Some(HandleError::InvalidProcess), next: PresentRequest::Measure }
    );
    kernel.present_impl(PresentEvent::Measured(Err(-1)));

    kernel.present_impl(PresentEvent::Begin);
    kernel.present_impl(PresentEvent::Received(Some(overlay_event(0x500))));
    kernel.present_impl(PresentEvent::Duplicated(Ok(0x700)));
    kernel.present_impl(PresentEvent::Measured(Err(-1)));
    kernel.present_impl(PresentEvent::Begin);
    kernel.present_impl(PresentEvent::Received(Some(overlay_event(0x501))));
    kernel.present_impl(PresentEvent::Duplicated(Ok(0x800)));
    assert_eq!(
        kernel.present_impl(PresentEvent::Closed(Err(HandleError::CannotClose(6)))),
        PresentStep {
            logged: Some(HandleError::CannotClose(6)),
            next: PresentRequest::Measure
        }
    );
}

#[test]
fn d3d11_failures_end_the_frame_with_their_reason() {
    let mut kernel = Direct3D11Kernel::new();
    kernel.present_impl(PresentEvent::Begin);
    kernel.present_impl(PresentEvent::Received(None));
    assert_eq!(
        kernel.present_impl(PresentEvent::Measured(Err(-2005270527))),
        present(PresentRequest::Finish(Err(RenderError::DXGIInternalError(-2005270527))))
    );

    kernel.present_impl(PresentEvent::Begin);
    kernel.present_impl(PresentEvent::Received(Some(overlay_event(0x500))));
    kernel.present_impl(PresentEvent::Duplicated(Ok(0x700)));
    kernel.present_impl(PresentEvent::Measured(Ok((screen(), 77))));
    assert_eq!(
        kernel.present_impl(PresentEvent::Sent(false)),
        present(PresentRequest::Finish(Err(RenderError::IpcError)))
    );

    kernel.present_impl(PresentEvent::Begin);
    kernel.present_impl(PresentEvent::Received(None));
    kernel.present_impl(PresentEvent::Measured(Ok((screen(), 77))));
    assert_eq!(
        kernel.present_impl(PresentEvent::Sent(true)),
        present(PresentRequest::Import(0x700))
    );
    assert_eq!(
        kernel.present_impl(PresentEvent::Imported(Err(ImportError::KeyedMutex))),
        present(PresentRequest::Finish(Err(RenderError::OverlayPaintNotReady(Box::new(
            RenderError::OverlayMutexNotReady
        )))))
    );

    kernel.present_impl(PresentEvent::Begin);
    kernel.present_impl(PresentEvent::Received(None));
    kernel.present_impl(PresentEvent::Measured(Ok((screen(), 77))));
    kernel.present_impl(PresentEvent::Sent(true));
    kernel.present_impl(PresentEvent::Imported(Ok(ImportedTexture {
        texture: 9,
        width: 800,
        height: 600,
    })));
    assert_eq!(
        kernel.present_impl(PresentEvent::RendererInitialized(Err(-7))),
        present(PresentRequest::Finish(Err(RenderError::ImGuiNotReady(Box::new(
            RenderError::DXGIInternalError(-7)
        )))))
    );

    // The next frame finds the texture opened and tries the renderer again.
    kernel.present_impl(PresentEvent::Begin);
    kernel.present_impl(PresentEvent::Received(None));
    assert_eq!(
        kernel.present_impl(PresentEvent::Measured(Ok((screen(), 77)))),
        present(PresentRequest::InitRenderer)
    );
    kernel.present_impl(PresentEvent::RendererInitialized(Ok(())));
    assert_eq!(
        kernel.present_impl(PresentEvent::RtvInitialized(Err(-8))),
        present(PresentRequest::Finish(Err(RenderError::ImGuiNotReady(Box::new(
            RenderError::DXGIInternalError(-8)
        )))))
    );

    kernel.present_impl(PresentEvent::Begin);
    kernel.present_impl(PresentEvent::Received(None));
    assert_eq!(
        kernel.present_impl(PresentEvent::Measured(Ok((screen(), 77)))),
        present(PresentRequest::InitRtv)
    );
    kernel.present_impl(PresentEvent::RtvInitialized(Ok(())));
    assert_eq!(
        kernel.present_impl(PresentEvent::Acquired(false)),
        present(PresentRequest::Finish(Err(RenderError::OverlayMutexNotReady)))
    );

    kernel.present_impl(PresentEvent::Begin);
    kernel.present_impl(PresentEvent::Received(None));
    kernel.present_impl(PresentEvent::Measured(Ok((screen(), 77))));
    kernel.present_impl(PresentEvent::Acquired(true));
    assert_eq!(
        kernel.present_impl(PresentEvent::Painted(Err(RenderError::RendererNotReady))),
        present(PresentRequest::Finish(Err(RenderError::RendererNotReady)))
    );
}

#[test]
fn d3d11_event_out_of_turn_ends_the_frame() {
    let mut kernel = Direct3D11Kernel::new();
    assert_eq!(
        kernel.present_impl(PresentEvent::Acquired(true)),
        present(PresentRequest::Finish(Err(RenderError::KernelNotReady)))
    );
    kernel.present_impl(PresentEvent::Begin);
    assert_eq!(
        kernel.present_impl(PresentEvent::Begin),
        present(PresentRequest::Finish(Err(RenderError::KernelNotReady)))
    );
    assert_eq!(kernel.present_impl(PresentEvent::Begin), present(PresentRequest::Receive));
}

#[test]
fn d3d11_resize_drops_the_render_target_view() {
    let mut kernel = Direct3D11Kernel::new();
    first_present(&mut kernel);
    kernel.resize_impl();
    kernel.present_impl(PresentEvent::Begin);
    kernel.present_impl(PresentEvent::Received(None));
    assert_eq!(
        kernel.present_impl(PresentEvent::Measured(Ok((screen(), 77)))),
        present(PresentRequest::InitRtv)
    );
}

#[test]
fn d3d11_kernel_registers_its_hooks_once() {
    let kernel = Direct3D11Kernel::new();
    let mut hook = Direct3D11HookContext::init(1, 2);
    assert!(kernel.init(&mut hook, (100, 10), (200, 20)).is_ok());
    assert_eq!(
        kernel.init(&mut hook, (100, 10), (201, 20)).err(),
        Some(HookError::KeyInUse(100))
    );
    assert_eq!(
        kernel.init(&mut hook, (101, 10), (200, 20)).err(),
        Some(HookError::KeyInUse(200))
    );
    // The persisted handlers are what a call of `Present` reaches.
    match hook.present() {
        Dispatch::Handler(first, mut next) => {
            assert_eq!(*first, 10);
            assert_eq!(*next.fp_next(), 1);
        }
        Dispatch::Original => panic!("the chain is linked"),
    }
}

fn area(window: usize, width: i32, height: i32) -> ClientArea {
    ClientArea { window, left: 10, top: 20, right: 10 + width, bottom: 20 + height, extensions_loaded: true }
}

#[test]
fn client_size_is_the_distance_of_the_edges() {
    assert_eq!(area(1, 800, 600).size(), Dimensions::new(800, 600));
    let flipped = ClientArea {
        window: 1,
        left: 30,
        top: 5,
        right: -10,
        bottom: -5,
        extensions_loaded: false,
    };
    assert_eq!(flipped.size(), Dimensions::new(40, 10));
    assert_eq!(abs_diff(i32::MIN, i32::MAX), u32::MAX);
    assert_eq!(abs_diff(i32::MAX, i32::MIN), u32::MAX);
    assert_eq!(abs_diff(7, 7), 0);
}

fn first_swap(kernel: &mut WGLKernel) {
    assert_eq!(kernel.swapbuffers_impl(SwapEvent::Begin(3)), swap(SwapRequest::ReloadGl));
    assert_eq!(kernel.swapbuffers_impl(SwapEvent::Reloaded), swap(SwapRequest::Receive));
    assert_eq!(
        kernel.swapbuffers_impl(SwapEvent::Received(Some(overlay_event(0x500)))),
        swap(SwapRequest::Duplicate(DuplicateRequest { source_pid: 4242, handle: 0x500 }))
    );
    assert_eq!(
        kernel.swapbuffers_impl(SwapEvent::Duplicated(Ok(0x700))),
        swap(SwapRequest::Measure)
    );
    assert_eq!(
        kernel.swapbuffers_impl(SwapEvent::Measured(area(77, 800, 600))),
        swap(SwapRequest::AttachWndProc(77))
    );
    // The event gave the extent that the window has: no resize is sent.
    assert_eq!(
        kernel.swapbuffers_impl(SwapEvent::Attached),
        swap(SwapRequest::Import(ImportRequest {
            handle: 0x700,
            size: 1_920_000,
            dimensions: screen()
        }))
    );
    assert_eq!(
        kernel.swapbuffers_impl(SwapEvent::Imported(Some(GlSharedTexture {
            texture: 12,
            memory: 13
        }))),
        swap(SwapRequest::InitRenderer)
    );
    assert_eq!(
        kernel.swapbuffers_impl(SwapEvent::RendererInitialized(Ok(()))),
        swap(SwapRequest::Acquire(13, SyncRequest { key: 0, timeout_ms: u32::MAX }))
    );
    assert_eq!(
        kernel.swapbuffers_impl(SwapEvent::Acquired(true)),
        swap(SwapRequest::Paint {
            overlay: Some(OverlayWindow::new(12, screen())),
            display: screen(),
            guard: Some(GlKeyedMutexHandle { memory: 13, key: 0 }),
        })
    );
    assert_eq!(
        kernel.swapbuffers_impl(SwapEvent::Painted(Ok(()))),
        swap(SwapRequest::Finish(Ok(())))
    );
}

#[test]
fn wgl_first_frame_sets_everything_up() {
    let mut kernel = WGLKernel::new();
    first_swap(&mut kernel);
}

#[test]
fn wgl_steady_frame_goes_straight_to_the_mutex() {
    let mut kernel = WGLKernel::new();
    first_swap(&mut kernel);
    for _ in 0..3 {
        assert_eq!(kernel.swapbuffers_impl(SwapEvent::Begin(3)), swap(SwapRequest::Receive));
        kernel.swapbuffers_impl(SwapEvent::Received(None));
        assert_eq!(
            kernel.swapbuffers_impl(SwapEvent::Measured(area(77, 800, 600))),
            swap(SwapRequest::Acquire(13, SyncRequest { key: 0, timeout_ms: u32::MAX }))
        );
        // Without the mutex the UI is drawn without the overlay.
        assert_eq!(
            kernel.swapbuffers_impl(SwapEvent::Acquired(false)),
            swap(SwapRequest::Paint { overlay: None, display: screen(), guard: None })
        );
        kernel.swapbuffers_impl(SwapEvent::Painted(Ok(())));
    }
}

#[test]
fn wgl_new_context_reloads_and_rebuilds() {
    let mut kernel = WGLKernel::new();
    first_swap(&mut kernel);
    assert_eq!(kernel.swapbuffers_impl(SwapEvent::Begin(4)), swap(SwapRequest::ReloadGl));
    kernel.swapbuffers_impl(SwapEvent::Reloaded);
    kernel.swapbuffers_impl(SwapEvent::Received(None));
    assert_eq!(
        kernel.swapbuffers_impl(SwapEvent::Measured(area(77, 800, 600))),
        swap(SwapRequest::Import(ImportRequest {
            handle: 0x700,
            size: 1_920_000,
            dimensions: screen()
        }))
    );
    assert_eq!(
        kernel.swapbuffers_impl(SwapEvent::Imported(Some(GlSharedTexture {
            texture: 14,
            memory: 15
        }))),
        swap(SwapRequest::InitRenderer)
    );
}

#[test]
fn wgl_resized_window_is_reported_to_the_producer() {
    let mut kernel = WGLKernel::new();
    first_swap(&mut kernel);
    kernel.swapbuffers_impl(SwapEvent::Begin(3));
    kernel.swapbuffers_impl(SwapEvent::Received(None));
    assert_eq!(
        kernel.swapbuffers_impl(SwapEvent::Measured(area(77, 1024, 768))),
        swap(SwapRequest::Send(GameWindowCommand::window_resize(&Size::new(1024, 768))))
    );
    assert_eq!(
        kernel.swapbuffers_impl(SwapEvent::Sent(true)),
        swap(SwapRequest::Acquire(13, SyncRequest { key: 0, timeout_ms: u32::MAX }))
    );
    kernel.swapbuffers_impl(SwapEvent::Acquired(true));
    kernel.swapbuffers_impl(SwapEvent::Painted(Ok(())));
    kernel.swapbuffers_impl(SwapEvent::Begin(3));
    kernel.swapbuffers_impl(SwapEvent::Received(None));
    kernel.swapbuffers_impl(SwapEvent::Measured(area(77, 1024, 768)));
    assert_eq!(
        kernel.swapbuffers_impl(SwapEvent::Sent(false)),
        swap(SwapRequest::Finish(Err(RenderError::IpcError)))
    );
}

#[test]
fn wgl_failures_end_the_frame_with_their_reason() {
    let mut kernel = WGLKernel::new();
    assert_eq!(kernel.swapbuffers_impl(SwapEvent::Begin(0)), swap(SwapRequest::Receive));
    kernel.swapbuffers_impl(SwapEvent::Received(None));
    assert_eq!(
        kernel.swapbuffers_impl(SwapEvent::Measured(area(0, 0, 0))),
        swap(SwapRequest::Finish(Err(RenderError::OverlayHandleNotReady)))
    );

    kernel.swapbuffers_impl(SwapEvent::Begin(0));
    kernel.swapbuffers_impl(SwapEvent::Received(Some(overlay_event(0x500))));
    assert_eq!(
        kernel.swapbuffers_impl(SwapEvent::Duplicated(Err(HandleError::CannotDuplicate(5)))),
        SwapStep { logged: Some(HandleError::CannotDuplicate(5)), next: SwapRequest::Measure }
    );
    kernel.swapbuffers_impl(SwapEvent::Measured(area(0, 0, 0)));

    kernel.swapbuffers_impl(SwapEvent::Begin(0));
    kernel.swapbuffers_impl(SwapEvent::Received(Some(overlay_event(0x500))));
    kernel.swapbuffers_impl(SwapEvent::Duplicated(Ok(0x700)));
    let mut bare = area(0, 800, 600);
    bare.extensions_loaded = false;
    assert_eq!(
        kernel.swapbuffers_impl(SwapEvent::Measured(bare)),
        swap(SwapRequest::Finish(Err(RenderError::OverlayPaintNotReady(Box::new(
            RenderError::OpenGLInternalError(OpenGLRenderError::MissingExtensionError(
                "GL_EXT_memory_object_win32, GL_EXT_direct_state_access"
            ))
        )))))
    );

    kernel.swapbuffers_impl(SwapEvent::Begin(0));
    kernel.swapbuffers_impl(SwapEvent::Received(None));
    kernel.swapbuffers_impl(SwapEvent::Measured(area(0, 800, 600)));
    assert_eq!(
        kernel.swapbuffers_impl(SwapEvent::Imported(None)),
        swap(SwapRequest::Finish(Err(RenderError::OverlayPaintNotReady(Box::new(
            RenderError::OverlayMutexNotReady
        )))))
    );

    kernel.swapbuffers_impl(SwapEvent::Begin(0));
    kernel.swapbuffers_impl(SwapEvent::Received(None));
    kernel.swapbuffers_impl(SwapEvent::Measured(area(0, 800, 600)));
    kernel.swapbuffers_impl(SwapEvent::Imported(Some(GlSharedTexture { texture: 12, memory: 13 })));
    assert_eq!(
        kernel.swapbuffers_impl(SwapEvent::RendererInitialized(Err(
            OpenGLRenderError::CompileError(0x8B31, "#version 130\n")
        ))),
        swap(SwapRequest::Finish(Err(RenderError::ImGuiNotReady(Box::new(
            RenderError::OpenGLInternalError(OpenGLRenderError::CompileError(
                0x8B31,
                "#version 130\n"
            ))
        )))))
    );
    assert_eq!(
        kernel.swapbuffers_impl(SwapEvent::Attached),
        swap(SwapRequest::Finish(Err(RenderError::KernelNotReady)))
    );
}

#[test]
fn wgl_kernel_registers_its_hook_once() {
    let mut kernel = WGLKernel::new();
    let mut hook = WGLHookContext::init(1);
    assert!(kernel.init(&mut hook, (100, 10)).is_ok());
    assert_eq!(kernel.init(&mut hook, (100, 11)).err(), Some(HookError::KeyInUse(100)));
    assert_eq!(kernel.init(&mut hook, (0, 11)).err(), Some(HookError::KeyInUse(0)));
    match hook.swap_buffers() {
        Dispatch::Handler(first, next) => {
            assert_eq!(*first, 10);
            assert_eq!(next.remaining(), 1);
        }
        Dispatch::Original => panic!("the chain is linked"),
    }
}
