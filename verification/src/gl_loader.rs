//! Platform-agnostic entry-point resolution.
//!
//! The rendering layer asks one function for addresses, whatever the host:
//! the backend is a strategy value selected at startup, either the native
//! context-management backend or the null backend of an unsupported
//! configuration, which always resolves to null.

use vstd::prelude::*;

use crate::wgl::state::{gpa_post, GlState};

verus! {

/// Which entry-point resolution backend the build runs on.
#[derive(Debug, Clone, Copy, PartialEq, Eq, Structural)]
pub enum LoaderBackend {
    /// The native context-management backend.
    Wgl,
    /// No supported graphics backend: every name resolves to null.
    Unsupported,
}

/// Get the address of an OpenGL function by name.  Never errors: a null
/// result means the capability is absent, and the caller must check it
/// before calling through the pointer.
pub fn get_proc_address(backend: &LoaderBackend, st: &mut GlState, name: &str) -> (addr: usize)
    requires
        old(st).wf(),
        old(st).platform.open_count < u64::MAX,
    ensures
        final(st).wf(),
        *backend is Wgl ==> gpa_post(*old(st), *final(st), name@, addr),
        *backend is Unsupported ==> addr == 0 && *final(st) == *old(st),
{
    match backend {
        LoaderBackend::Wgl => crate::wgl::state::get_proc_address(st, name),
        LoaderBackend::Unsupported => 0,
    }
}

} // verus!
