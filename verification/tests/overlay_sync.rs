use snowflake_ingame::common::{
    Dimensions, DuplicateRequest, OpenGLRenderError, OverlayPhase, OverlayWindow, RefreshStep,
    RenderError, SyncRequest,
};
use snowflake_ingame::d3d11::overlay_d3d11::{
    Direct3D11Overlay, ImportError, ImportedTexture, KeyedMutexHandle, PaintPlan,
};
use snowflake_ingame::ipc::cmd::OverlayTextureEventParams;
use snowflake_ingame::wgl::overlay_wgl::{
    GlSharedTexture, ImportRequest, KeyedMutexHandle as GlKeyedMutexHandle,
    PaintPlan as GlPaintPlan, WGLOverlay,
};
use snowflake_ingame::win32::handle::HandleError;

fn params(handle: usize, width: u32, height: u32) -> OverlayTextureEventParams {
    OverlayTextureEventParams {
        handle,
        source_pid: 4242,
        width,
        height,
        size: 4 * width as u64 * height as u64,
        alignment: 4096,
        sync_handle: 0,
    }
}

fn texture(id: usize, width: u32, height: u32) -> ImportedTexture {
    ImportedTexture { texture: id, width, height }
}

/// Runs `prepare_paint` as a frame does and counts the imports asked for.
fn prepare(overlay: &mut Direct3D11Overlay, window: usize, imports: &mut u32) {
    if let PaintPlan::Import(_) = overlay.prepare_paint(window) {
        *imports += 1;
        overlay
            .finish_import(window, Ok(texture(9, 800, 600)))
            .unwrap();
    }
}

#[test]
fn d3d11_overlay_starts_uninitialized() {
    let overlay = Direct3D11Overlay::new();
    assert_eq!(overlay.phase(), OverlayPhase::Uninitialized);
    assert!(!overlay.ready_to_initialize());
    assert!(!overlay.ready_to_paint());
    assert_eq!(overlay.dimensions(), Dimensions::new(0, 0));
    assert_eq!(overlay.acquire_sync(), None);
    assert_eq!(overlay.paint(), None);
}

#[test]
fn d3d11_refresh_request_names_process_and_handle() {
    assert_eq!(
        Direct3D11Overlay::refresh_request(&params(0x500, 1, 1)),
        DuplicateRequest { source_pid: 4242, handle: 0x500 }
    );
    let mut negative = params(0x500, 1, 1);
    negative.source_pid = -1;
    assert_eq!(
        Direct3D11Overlay::refresh_request(&negative),
        DuplicateRequest { source_pid: u32::MAX, handle: 0x500 }
    );
}

#[test]
fn d3d11_overlay_walks_through_its_phases() {
    let mut overlay = Direct3D11Overlay::new();
    assert_eq!(overlay.refresh(Ok(0x500)), Ok(RefreshStep::Done));
    assert_eq!(overlay.phase(), OverlayPhase::HandleReceived);
    assert!(overlay.ready_to_initialize());
    assert_eq!(overlay.prepare_paint(77), PaintPlan::Import(0x500));
    assert_eq!(overlay.finish_import(77, Ok(texture(9, 800, 600))), Ok(()));
    assert_eq!(overlay.phase(), OverlayPhase::Imported);
    assert!(overlay.ready_to_paint());
    // The producer's texture is authoritative for the extent.
    assert_eq!(overlay.dimensions(), Dimensions::new(800, 600));
    assert_eq!(
        overlay.acquire_sync(),
        Some(SyncRequest { key: 0, timeout_ms: u32::MAX })
    );
    assert_eq!(
        overlay.paint(),
        Some(OverlayWindow::new(9, Dimensions::new(800, 600)))
    );
}

#[test]
fn size_matches_only_the_remote_dimensions_and_changes_nothing() {
    let mut overlay = Direct3D11Overlay::new();
    overlay.refresh(Ok(0x500)).unwrap();
    overlay.prepare_paint(77);
    overlay.finish_import(77, Ok(texture(9, 800, 600))).unwrap();
    for _ in 0..5 {
        assert!(overlay.size_matches_viewpoint(&Dimensions::new(800, 600)));
        assert!(!overlay.size_matches_viewpoint(&Dimensions::new(600, 800)));
        assert!(!overlay.size_matches_viewpoint(&Dimensions::new(800, 601)));
        assert!(!overlay.size_matches_viewpoint(&Dimensions::new(0, 0)));
    }
    assert_eq!(overlay.phase(), OverlayPhase::Imported);
    assert_eq!(overlay.dimensions(), Dimensions::new(800, 600));
    // The other size stops mismatching once the dimensions are updated.
    overlay.invalidate();
    overlay.prepare_paint(77);
    overlay.finish_import(77, Ok(texture(9, 600, 800))).unwrap();
    assert!(overlay.size_matches_viewpoint(&Dimensions::new(600, 800)));
    assert!(!overlay.size_matches_viewpoint(&Dimensions::new(800, 600)));
}

#[test]
fn prepare_paint_is_idempotent_for_one_window() {
    let mut overlay = Direct3D11Overlay::new();
    let mut imports = 0;
    overlay.refresh(Ok(0x500)).unwrap();
    for _ in 0..10 {
        prepare(&mut overlay, 77, &mut imports);
    }
    assert_eq!(imports, 1);
    // Another output window asks for the import again, once.
    for _ in 0..10 {
        prepare(&mut overlay, 78, &mut imports);
    }
    assert_eq!(imports, 2);
}

#[test]
fn refresh_with_a_new_handle_clears_imported() {
    let mut overlay = Direct3D11Overlay::new();
    let mut imports = 0;
    overlay.refresh(Ok(0x500)).unwrap();
    prepare(&mut overlay, 77, &mut imports);
    prepare(&mut overlay, 77, &mut imports);
    assert_eq!(imports, 1);
    assert_eq!(overlay.phase(), OverlayPhase::Imported);

    assert_eq!(overlay.refresh(Ok(0x600)), Ok(RefreshStep::Close(0x500)));
    assert_eq!(overlay.phase(), OverlayPhase::HandleReceived);
    assert_eq!(overlay.acquire_sync(), None);
    assert_eq!(overlay.finish_refresh(Ok(())), Ok(()));
    assert_eq!(overlay.prepare_paint(77), PaintPlan::Import(0x600));
    overlay.finish_import(77, Ok(texture(10, 800, 600))).unwrap();
    prepare(&mut overlay, 77, &mut imports);
    assert_eq!(imports, 1);
    assert_eq!(
        overlay.paint(),
        Some(OverlayWindow::new(10, Dimensions::new(800, 600)))
    );
}

#[test]
fn failed_duplication_leaves_the_overlay_as_it_was() {
    let mut overlay = Direct3D11Overlay::new();
    overlay.refresh(Ok(0x500)).unwrap();
    overlay.prepare_paint(77);
    overlay.finish_import(77, Ok(texture(9, 800, 600))).unwrap();
    assert_eq!(
        overlay.refresh(Err(HandleError::InvalidProcess)),
        Err(HandleError::InvalidProcess)
    );
    assert_eq!(
        overlay.refresh(Err(HandleError::CannotDuplicate(5))),
        Err(HandleError::CannotDuplicate(5))
    );
    assert_eq!(overlay.phase(), OverlayPhase::Imported);
    assert_eq!(overlay.prepare_paint(77), PaintPlan::Ready);
}

#[test]
fn failed_close_keeps_the_old_handle() {
    let mut overlay = Direct3D11Overlay::new();
    overlay.refresh(Ok(0x500)).unwrap();
    assert_eq!(overlay.refresh(Ok(0x600)), Ok(RefreshStep::Close(0x500)));
    assert_eq!(
        overlay.finish_refresh(Err(HandleError::CannotClose(6))),
        Err(HandleError::CannotClose(6))
    );
    assert_eq!(overlay.prepare_paint(77), PaintPlan::Import(0x500));
    // Nothing waits any more: a second report changes nothing.
    assert_eq!(overlay.finish_refresh(Err(HandleError::CannotClose(6))), Ok(()));
    assert_eq!(overlay.prepare_paint(77), PaintPlan::Import(0x500));
}

#[test]
fn failed_import_reports_a_typed_error_and_retries() {
    let mut overlay = Direct3D11Overlay::new();
    overlay.refresh(Ok(0x500)).unwrap();
    let failures = vec![
        (
            ImportError::SharedResource(-2147024809),
            RenderError::OverlayHandleError(0x500, -2147024809),
        ),
        (ImportError::KeyedMutex, RenderError::OverlayMutexNotReady),
        (
            ImportError::ShaderResourceView(-2005270523),
            RenderError::DXGIInternalError(-2005270523),
        ),
    ];
    for (failure, error) in failures {
        assert_eq!(overlay.prepare_paint(77), PaintPlan::Import(0x500));
        assert_eq!(overlay.finish_import(77, Err(failure)), Err(error));
        assert_eq!(overlay.phase(), OverlayPhase::HandleReceived);
    }
    assert_eq!(overlay.prepare_paint(77), PaintPlan::Import(0x500));
}

#[test]
fn import_without_a_handle_is_asked_of_the_null_handle() {
    let mut overlay = Direct3D11Overlay::new();
    assert_eq!(overlay.prepare_paint(77), PaintPlan::Import(0));
    assert_eq!(
        overlay.finish_import(77, Err(ImportError::SharedResource(-1))),
        Err(RenderError::OverlayHandleError(0, -1))
    );
    assert_eq!(overlay.phase(), OverlayPhase::Uninitialized);
}

#[test]
fn d3d11_keyed_mutex_is_released_under_key_zero() {
    assert_eq!(KeyedMutexHandle::new(false, 0), None);
    assert_eq!(KeyedMutexHandle::new(true, 0).unwrap().release_key(), 0);
    assert_eq!(KeyedMutexHandle::new(true, 5).unwrap().release_key(), 0);
}

#[test]
fn wgl_keyed_mutex_is_released_under_its_own_key() {
    assert_eq!(GlKeyedMutexHandle::new(false, 4, 1), None);
    assert_eq!(
        GlKeyedMutexHandle::new(true, 4, 1),
        Some(GlKeyedMutexHandle { memory: 4, key: 1 })
    );
}

#[test]
fn wgl_overlay_takes_its_extent_from_the_event() {
    let mut overlay = WGLOverlay::new();
    assert_eq!(overlay.phase(), OverlayPhase::Uninitialized);
    assert_eq!(
        WGLOverlay::refresh_request(&params(0x500, 800, 600)),
        DuplicateRequest { source_pid: 4242, handle: 0x500 }
    );
    assert_eq!(overlay.refresh(params(0x500, 800, 600), Ok(0x700)), Ok(RefreshStep::Done));
    assert_eq!(overlay.phase(), OverlayPhase::HandleReceived);
    assert_eq!(overlay.dimensions(), Dimensions::new(800, 600));
    assert!(overlay.size_matches_viewpoint(&Dimensions::new(800, 600)));
    assert!(!overlay.size_matches_viewpoint(&Dimensions::new(800, 599)));
    assert_eq!(
        overlay.prepare_paint(77, 3, true),
        Ok(GlPaintPlan::Import(ImportRequest {
            handle: 0x700,
            size: 1_920_000,
            dimensions: Dimensions::new(800, 600)
        }))
    );
    let shared = GlSharedTexture { texture: 12, memory: 13 };
    assert_eq!(overlay.finish_import(77, 3, Some(shared)), Ok(()));
    assert_eq!(overlay.phase(), OverlayPhase::Imported);
    assert!(overlay.ready_to_paint());
    assert_eq!(
        overlay.acquire_sync(),
        Some((13, SyncRequest { key: 0, timeout_ms: u32::MAX }))
    );
    assert_eq!(
        overlay.paint(),
        Some(OverlayWindow::new(12, Dimensions::new(800, 600)))
    );
}

#[test]
fn wgl_prepare_paint_is_idempotent_for_one_window_and_context() {
    let mut overlay = WGLOverlay::new();
    overlay.refresh(params(0x500, 800, 600), Ok(0x700)).unwrap();
    let mut imports = 0;
    let shared = GlSharedTexture { texture: 12, memory: 13 };
    for (window, context) in [(77, 3), (77, 3), (77, 3), (77, 4), (77, 4), (78, 4), (78, 4)] {
        if let Ok(GlPaintPlan::Import(_)) = overlay.prepare_paint(window, context, true) {
            imports += 1;
            overlay.finish_import(window, context, Some(shared)).unwrap();
        }
    }
    assert_eq!(imports, 3);
}

#[test]
fn wgl_refresh_with_a_new_handle_clears_imported() {
    let mut overlay = WGLOverlay::new();
    overlay.refresh(params(0x500, 800, 600), Ok(0x700)).unwrap();
    overlay.prepare_paint(77, 3, true).unwrap();
    overlay
        .finish_import(77, 3, Some(GlSharedTexture { texture: 12, memory: 13 }))
        .unwrap();
    assert_eq!(overlay.prepare_paint(77, 3, true), Ok(GlPaintPlan::Ready));

    assert_eq!(
        overlay.refresh(params(0x501, 1024, 768), Ok(0x800)),
        Ok(RefreshStep::Close(0x700))
    );
    assert_eq!(overlay.phase(), OverlayPhase::HandleReceived);
    // Until the old handle is closed the old extent stands.
    assert_eq!(overlay.dimensions(), Dimensions::new(800, 600));
    assert_eq!(overlay.finish_refresh(Ok(())), Ok(()));
    assert_eq!(overlay.dimensions(), Dimensions::new(1024, 768));
    assert_eq!(
        overlay.prepare_paint(77, 3, true),
        Ok(GlPaintPlan::Import(ImportRequest {
            handle: 0x800,
            size: 4 * 1024 * 768,
            dimensions: Dimensions::new(1024, 768)
        }))
    );
}

#[test]
fn wgl_failed_close_keeps_handle_and_extent() {
    let mut overlay = WGLOverlay::new();
    overlay.refresh(params(0x500, 800, 600), Ok(0x700)).unwrap();
    overlay.refresh(params(0x501, 1024, 768), Ok(0x800)).unwrap();
    assert_eq!(
        overlay.finish_refresh(Err(HandleError::CannotClose(6))),
        Err(HandleError::CannotClose(6))
    );
    assert_eq!(overlay.dimensions(), Dimensions::new(800, 600));
    assert_eq!(
        overlay.prepare_paint(77, 3, true),
        Ok(GlPaintPlan::Import(ImportRequest {
            handle: 0x700,
            size: 1_920_000,
            dimensions: Dimensions::new(800, 600)
        }))
    );
    assert_eq!(overlay.finish_refresh(Ok(())), Ok(()));
    assert_eq!(overlay.dimensions(), Dimensions::new(800, 600));
}

#[test]
fn wgl_failed_duplication_changes_nothing() {
    let mut overlay = WGLOverlay::new();
    assert_eq!(
        overlay.refresh(params(0x500, 800, 600), Err(HandleError::CannotDuplicate(5))),
        Err(HandleError::CannotDuplicate(5))
    );
    assert_eq!(overlay.phase(), OverlayPhase::Uninitialized);
    assert_eq!(overlay.dimensions(), Dimensions::new(0, 0));
}

#[test]
fn wgl_import_needs_the_memory_object_extensions() {
    let mut overlay = WGLOverlay::new();
    overlay.refresh(params(0x500, 800, 600), Ok(0x700)).unwrap();
    assert_eq!(
        overlay.prepare_paint(77, 3, false),
        Err(RenderError::OpenGLInternalError(
            OpenGLRenderError::MissingExtensionError(
                "GL_EXT_memory_object_win32, GL_EXT_direct_state_access"
            )
        ))
    );
    assert_eq!(overlay.phase(), OverlayPhase::HandleReceived);
}

#[test]
fn wgl_import_without_the_mutex_fails_and_retries() {
    let mut overlay = WGLOverlay::new();
    overlay.refresh(params(0x500, 800, 600), Ok(0x700)).unwrap();
    overlay.prepare_paint(77, 3, true).unwrap();
    assert_eq!(
        overlay.finish_import(77, 3, None),
        Err(RenderError::OverlayMutexNotReady)
    );
    assert_eq!(overlay.phase(), OverlayPhase::HandleReceived);
    assert_eq!(overlay.acquire_sync(), None);
    assert_eq!(overlay.paint(), None);
    assert!(matches!(overlay.prepare_paint(77, 3, true), Ok(GlPaintPlan::Import(_))));
}

#[test]
fn wgl_invalidate_drops_the_texture_only() {
    let mut overlay = WGLOverlay::new();
    overlay.refresh(params(0x500, 800, 600), Ok(0x700)).unwrap();
    overlay.prepare_paint(77, 3, true).unwrap();
    overlay
        .finish_import(77, 3, Some(GlSharedTexture { texture: 12, memory: 13 }))
        .unwrap();
    overlay.invalidate();
    assert_eq!(overlay.phase(), OverlayPhase::HandleReceived);
    assert_eq!(overlay.dimensions(), Dimensions::new(800, 600));
    assert!(overlay.ready_to_initialize());
}
