use glctx::wgl::{
    init_gl_library, Error, GlState, LoadFailure, MakeCurrentError, Platform, Runtime, Symbol,
    WGLContext, WGLDisplay,
};
use glctx::wgl::platform::{PFD_DOUBLEBUFFER, PFD_DRAW_TO_WINDOW, PFD_SUPPORT_OPENGL};
use glctx::wgl::display::window_pixel_format;

fn test_runtime() -> Runtime {
    Runtime {
        query_proc_addr: 0x1000,
        create_context_addr: 0x1001,
        delete_context_addr: 0x1002,
        make_current_addr: 0x1003,
        get_current_context_addr: 0x1004,
        get_current_dc_addr: 0x1005,
        extension_symbols: vec![
            Symbol { name: String::from("glCreateShader"), addr: 0x2000 },
            Symbol { name: String::from("glDrawArrays"), addr: 3 },
        ],
        core_symbols: vec![
            Symbol { name: String::from("glClear"), addr: 0x3000 },
            Symbol { name: String::from("glDrawArrays"), addr: 0x3001 },
        ],
        supported_flags: PFD_DRAW_TO_WINDOW | PFD_SUPPORT_OPENGL | PFD_DOUBLEBUFFER,
        max_color_bits: 32,
        max_depth_bits: 24,
        max_stencil_bits: 8,
    }
}

fn ready_state() -> GlState {
    // Device context 77 stands for a caller-owned, pre-configured drawable.
    GlState::new(Platform::with_runtime(test_runtime(), vec![77]))
}

#[test]
fn from_window_valid_is_ok_and_owned() {
    let mut st = ready_state();
    let d = WGLDisplay::from_window(&mut st, 42).unwrap();
    assert!(d.handle.owned);
    assert_eq!(d.handle.hwnd, Some(42));
    assert_ne!(d.hdc(), 0);
    assert!(d.swap_buffers(&st));
}

#[test]
fn from_window_null_window_fails() {
    let mut st = ready_state();
    assert_eq!(
        WGLDisplay::from_window(&mut st, 0).unwrap_err(),
        Error::GetDCFailed
    );
}

#[test]
fn from_raw_null_handle_fails() {
    let mut st = ready_state();
    assert_eq!(WGLDisplay::from_raw(&mut st, 0).unwrap_err(), Error::GetDCFailed);
}

#[test]
fn unsatisfiable_pixel_format_is_rejected() {
    // The runtime cannot do double buffering: the request must fail, never
    // be silently downgraded.
    let rt = Runtime {
        supported_flags: PFD_DRAW_TO_WINDOW | PFD_SUPPORT_OPENGL,
        ..test_runtime()
    };
    let mut st = GlState::new(Platform::with_runtime(rt, vec![]));
    assert_eq!(
        WGLDisplay::from_window(&mut st, 42).unwrap_err(),
        Error::ChoosePixelFormatFailed
    );
    assert_eq!(st.surfaces.len(), 0);

    // Too small a depth buffer fails the same way.
    let rt = Runtime { max_depth_bits: 16, ..test_runtime() };
    let mut st = GlState::new(Platform::with_runtime(rt, vec![]));
    assert_eq!(
        WGLDisplay::from_window(&mut st, 42).unwrap_err(),
        Error::ChoosePixelFormatFailed
    );
}

#[test]
fn set_pixel_format_is_once_per_device_context() {
    let mut p = Platform::with_runtime(test_runtime(), vec![]);
    let dc = p.get_dc(42);
    let pfd = window_pixel_format();
    let fmt = p.choose_pixel_format(&pfd);
    assert_eq!(fmt, 1);
    assert!(p.set_pixel_format(dc, fmt, &pfd));
    assert!(!p.set_pixel_format(dc, fmt, &pfd));
}

#[test]
fn context_creation_fails_on_unconfigured_drawable() {
    let mut st = ready_state();
    // 55 is no device context the platform knows.
    let d = WGLDisplay::from_raw(&mut st, 55).unwrap();
    assert_eq!(WGLContext::new(&mut st, &d).unwrap_err(), Error::ContextCreationFailed);
    assert!(!d.swap_buffers(&st));
}

#[test]
fn bind_then_query_reflects_latest_operation() {
    let mut st = ready_state();
    let surface_a = WGLDisplay::from_window(&mut st, 42).unwrap();
    let ctx_a = WGLContext::new(&mut st, &surface_a).unwrap();
    let ctx_b = WGLContext::new(&mut st, &surface_a).unwrap();

    ctx_a.make_current(&mut st).unwrap();
    assert!(ctx_a.is_current(&st));
    assert!(!ctx_b.is_current(&st));

    ctx_b.make_current(&mut st).unwrap();
    assert!(!ctx_a.is_current(&st));
    assert!(ctx_b.is_current(&st));

    WGLContext::unbind(&mut st).unwrap();
    assert!(!ctx_a.is_current(&st));
    assert!(!ctx_b.is_current(&st));

    ctx_a.make_current(&mut st).unwrap();
    assert!(ctx_a.is_current(&st));
}

#[test]
fn dropping_current_context_leaves_no_current() {
    let mut st = ready_state();
    let surface_a = WGLDisplay::from_window(&mut st, 42).unwrap();
    let ctx_b = WGLContext::new(&mut st, &surface_a).unwrap();
    ctx_b.make_current(&mut st).unwrap();
    assert!(ctx_b.is_current(&st));

    ctx_b.release(&mut st);
    assert_eq!(st.platform.get_current_context(), 0);
    assert_eq!(st.platform.get_current_dc(), 0);
}

#[test]
fn dropping_other_context_keeps_current() {
    let mut st = ready_state();
    let surface_a = WGLDisplay::from_window(&mut st, 42).unwrap();
    let ctx_a = WGLContext::new(&mut st, &surface_a).unwrap();
    let ctx_b = WGLContext::new(&mut st, &surface_a).unwrap();
    ctx_a.make_current(&mut st).unwrap();
    ctx_b.release(&mut st);
    assert!(ctx_a.is_current(&st));
}

#[test]
fn raw_surface_is_never_released_natively() {
    let mut st = ready_state();
    let d = WGLDisplay::from_raw(&mut st, 77).unwrap();
    assert!(!d.handle.owned);
    let before = st.platform.dc_release_count;
    d.release(&mut st);
    assert_eq!(st.platform.dc_release_count, before);
}

#[test]
fn window_surface_released_exactly_once_with_last_owner() {
    let mut st = ready_state();
    let d = WGLDisplay::from_window(&mut st, 42).unwrap();
    let ctx = WGLContext::new(&mut st, &d).unwrap();

    // The context still holds a share: no native release yet.
    d.release(&mut st);
    assert_eq!(st.platform.dc_release_count, 0);

    // The last share goes with the context: exactly one native release.
    ctx.release(&mut st);
    assert_eq!(st.platform.dc_release_count, 1);
    assert_eq!(st.surfaces.len(), 0);
}

#[test]
fn shared_surface_released_once() {
    let mut st = ready_state();
    let d = WGLDisplay::from_window(&mut st, 42).unwrap();
    let d2 = d.share(&mut st);
    d.release(&mut st);
    assert_eq!(st.platform.dc_release_count, 0);
    d2.release(&mut st);
    assert_eq!(st.platform.dc_release_count, 1);
}

#[test]
fn unbind_before_initialization_fails() {
    let mut st = GlState::new(Platform::unavailable());
    assert_eq!(WGLContext::unbind(&mut st), Err(MakeCurrentError));
}

#[test]
fn init_failure_is_cached_and_library_opened_once() {
    let mut st = GlState::new(Platform::unavailable());
    let r1 = init_gl_library(&mut st);
    let r2 = init_gl_library(&mut st);
    assert_eq!(r1, Err(Error::LibraryLoadFailed(LoadFailure::LibraryNotFound)));
    assert_eq!(r1, r2);
    assert_eq!(st.platform.open_count, 1);
}

#[test]
fn init_success_is_cached_and_library_opened_once() {
    let mut st = ready_state();
    let r1 = init_gl_library(&mut st);
    let r2 = init_gl_library(&mut st);
    assert_eq!(r1, Ok(()));
    assert_eq!(r2, Ok(()));
    assert_eq!(st.platform.open_count, 1);
}

#[test]
fn missing_core_symbol_fails_initialization() {
    let rt = Runtime { make_current_addr: 0, ..test_runtime() };
    let mut st = GlState::new(Platform::with_runtime(rt, vec![]));
    assert_eq!(
        init_gl_library(&mut st),
        Err(Error::LibraryLoadFailed(LoadFailure::SymbolMissing))
    );
}

#[test]
fn context_accessors_forward() {
    let mut st = ready_state();
    let d = WGLDisplay::from_window(&mut st, 42).unwrap();
    let hdc = d.hdc();
    let ctx = WGLContext::new(&mut st, &d).unwrap();
    assert_ne!(ctx.hglrc(), 0);
    assert_eq!(ctx.display().hdc(), hdc);
    assert!(ctx.swap_buffers(&st));
}
