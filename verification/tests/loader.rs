use glctx::gl_loader::{get_proc_address as dispatch_proc_address, LoaderBackend};
use glctx::wgl::platform::{PFD_DOUBLEBUFFER, PFD_DRAW_TO_WINDOW, PFD_SUPPORT_OPENGL};
use glctx::wgl::{get_proc_address, GlState, Platform, Runtime, Symbol};

fn test_runtime() -> Runtime {
    Runtime {
        query_proc_addr: 0x1000,
        create_context_addr: 0x1001,
        delete_context_addr: 0x1002,
        make_current_addr: 0x1003,
        get_current_context_addr: 0x1004,
        get_current_dc_addr: 0x1005,
        extension_symbols: vec![
            Symbol { name: String::from("glCreateShader"), addr: 0x2000 },
            Symbol { name: String::from("glDrawArrays"), addr: 3 },
            Symbol { name: String::from("glFinish"), addr: usize::MAX },
        ],
        core_symbols: vec![
            Symbol { name: String::from("glClear"), addr: 0x3000 },
            Symbol { name: String::from("glDrawArrays"), addr: 0x3001 },
        ],
        supported_flags: PFD_DRAW_TO_WINDOW | PFD_SUPPORT_OPENGL | PFD_DOUBLEBUFFER,
        max_color_bits: 32,
        max_depth_bits: 24,
        max_stencil_bits: 8,
    }
}

fn ready_state() -> GlState {
    GlState::new(Platform::with_runtime(test_runtime(), vec![]))
}

#[test]
fn unknown_name_resolves_to_null() {
    let mut st = ready_state();
    assert_eq!(get_proc_address(&mut st, "nonexistent_symbol_xyz"), 0);
}

#[test]
fn known_core_function_resolves_to_same_nonnull_address() {
    let mut st = ready_state();
    let a1 = get_proc_address(&mut st, "glClear");
    let a2 = get_proc_address(&mut st, "glClear");
    assert_ne!(a1, 0);
    assert_eq!(a1, a2);
}

#[test]
fn extension_path_is_tried_first() {
    let mut st = ready_state();
    assert_eq!(get_proc_address(&mut st, "glCreateShader"), 0x2000);
}

#[test]
fn sentinel_addresses_fall_back_to_export_lookup() {
    let mut st = ready_state();
    // The extension query answers with driver sentinels for these names; the
    // export table must win.
    assert_eq!(get_proc_address(&mut st, "glDrawArrays"), 0x3001);
    assert_eq!(get_proc_address(&mut st, "glFinish"), 0);
}

#[test]
fn resolution_initializes_the_library_once() {
    let mut st = ready_state();
    let _ = get_proc_address(&mut st, "glClear");
    let _ = get_proc_address(&mut st, "glCreateShader");
    assert_eq!(st.platform.open_count, 1);
}

#[test]
fn failed_initialization_resolves_to_null() {
    let mut st = GlState::new(Platform::unavailable());
    assert_eq!(get_proc_address(&mut st, "glClear"), 0);
    assert_eq!(get_proc_address(&mut st, "glClear"), 0);
    assert_eq!(st.platform.open_count, 1);
}

#[test]
fn dispatch_forwards_to_the_native_backend() {
    let mut st = ready_state();
    assert_eq!(
        dispatch_proc_address(&LoaderBackend::Wgl, &mut st, "glClear"),
        0x3000
    );
}

#[test]
fn unsupported_backend_always_resolves_to_null() {
    let mut st = ready_state();
    assert_eq!(
        dispatch_proc_address(&LoaderBackend::Unsupported, &mut st, "glClear"),
        0
    );
    assert_eq!(st.platform.open_count, 0);
}
