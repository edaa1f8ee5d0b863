//! Rendering contexts.
//!
//! A context is created against a drawable surface and keeps one share of it,
//! so the surface outlives the context.  Destruction is the one ordering-
//! critical operation of the subsystem: [`WGLContext::release`] unbinds the
//! context first when it is the thread's current context, and only then
//! deletes the native handle — deletion is never performed on a current
//! context.

use vstd::prelude::*;

use crate::wgl::display::{WGLDisplay, WGLDisplayHandle};
use crate::wgl::errors::{Error, MakeCurrentError};
use crate::wgl::platform::{
    removed_first, spec_create_context_ok, spec_make_current_ok, Platform,
};
use crate::wgl::state::{
    bump_post, bump_surface_ref, release_surface_ref, surface_release_clauses, GlState,
};

verus! {

/// One owner of a rendering context.  Values are deliberately not cloneable:
/// each context is released exactly once, by [`WGLContext::release`].
#[derive(Debug)]
pub struct WGLContext {
    /// The native rendering-context handle.
    pub hglrc: isize,
    /// The share of the drawable surface the context holds.
    pub display: WGLDisplay,
}

/// What one `WGLContext::new` call does: creation fails exactly when the
/// native call would return the invalid (zero) handle — the runtime is absent
/// or the surface's device context is not a configured drawable.  On success
/// the fresh handle is recorded live and the context takes one more share of
/// its surface.
pub open spec fn context_new_post(
    pre: GlState,
    post: GlState,
    d: WGLDisplay,
    r: Result<WGLContext, Error>,
) -> bool {
    if !spec_create_context_ok(pre.platform, d.handle.hdc) {
        &&& r == Err::<WGLContext, Error>(Error::ContextCreationFailed)
        &&& post == pre
    } else {
        let h = pre.platform.next_context;
        &&& r == Ok::<WGLContext, Error>(WGLContext { hglrc: h, display: d })
        &&& post.platform.live_contexts@ == pre.platform.live_contexts@.push(h)
        &&& post.platform.next_context == pre.platform.next_context + 1
        &&& Platform::eq_except_contexts(pre.platform, post.platform)
        &&& post.platform.context_delete_count == pre.platform.context_delete_count
        &&& post.library == pre.library
        &&& post.next_sid == pre.next_sid
        &&& bump_post(pre.surfaces@, post.surfaces@, d.sid)
    }
}

/// What one `make_current` call does: binding succeeds exactly when the
/// resolver has succeeded and both handles exist, and then this context and
/// its surface are the thread's current binding; on failure nothing changes.
pub open spec fn make_current_post(
    pre: GlState,
    post: GlState,
    ctx: WGLContext,
    r: Result<(), MakeCurrentError>,
) -> bool {
    if pre.initialized() && spec_make_current_ok(
        pre.platform,
        ctx.display.handle.hdc,
        ctx.hglrc,
    ) {
        &&& r == Ok::<(), MakeCurrentError>(())
        &&& post.platform.current_context == (if ctx.hglrc == 0 {
            0isize
        } else {
            ctx.hglrc
        })
        &&& post.platform.current_dc == (if ctx.hglrc == 0 {
            0isize
        } else {
            ctx.display.handle.hdc
        })
        &&& Platform::eq_except_current(pre.platform, post.platform)
        &&& post.library == pre.library
        &&& post.surfaces == pre.surfaces
        &&& post.next_sid == pre.next_sid
    } else {
        &&& r == Err::<(), MakeCurrentError>(MakeCurrentError)
        &&& post == pre
    }
}

/// What one `unbind` call does: with the resolver initialized it clears the
/// thread's current binding (null handles are passed to the platform) and
/// succeeds; before initialization it fails and changes nothing.
pub open spec fn unbind_post(pre: GlState, post: GlState, r: Result<(), MakeCurrentError>) -> bool {
    if pre.initialized() {
        &&& r == Ok::<(), MakeCurrentError>(())
        &&& post.platform.current_context == 0
        &&& post.platform.current_dc == 0
        &&& Platform::eq_except_current(pre.platform, post.platform)
        &&& post.library == pre.library
        &&& post.surfaces == pre.surfaces
        &&& post.next_sid == pre.next_sid
    } else {
        &&& r == Err::<(), MakeCurrentError>(MakeCurrentError)
        &&& post == pre
    }
}

/// What one `WGLContext::release` call does.  If the context is the thread's
/// current context it is unbound first, so the current binding never dangles;
/// the native handle is then deleted (when it was live), and the context's
/// share of its surface is given back, with the surface's own release rules.
pub open spec fn context_release_post(pre: GlState, post: GlState, ctx: WGLContext) -> bool {
    let was_current = pre.platform.current_context == ctx.hglrc;
    let deleted = pre.platform.live_contexts@.contains(ctx.hglrc);
    &&& post.platform.current_context == (if was_current {
        0isize
    } else {
        pre.platform.current_context
    })
    &&& post.platform.current_dc == (if was_current {
        0isize
    } else {
        pre.platform.current_dc
    })
    &&& removed_first(pre.platform.live_contexts@, post.platform.live_contexts@, ctx.hglrc)
    &&& post.platform.context_delete_count == pre.platform.context_delete_count + (if deleted {
        1int
    } else {
        0int
    })
    &&& post.platform.next_context == pre.platform.next_context
    &&& post.platform.runtime == pre.platform.runtime
    &&& post.platform.open_count == pre.platform.open_count
    &&& post.platform.next_dc == pre.platform.next_dc
    &&& post.library == pre.library
    &&& post.next_sid == pre.next_sid
    &&& surface_release_clauses(pre, post, ctx.display.sid)
}

impl WGLContext {
    /// Create a rendering context against a drawable surface.  The context
    /// keeps one share of the surface alive for its whole life.
    pub fn new(st: &mut GlState, display: &WGLDisplay) -> (r: Result<WGLContext, Error>)
        requires
            old(st).wf(),
            old(st).initialized(),
            old(st).platform.next_context < isize::MAX,
            forall|i: int|
                0 <= i < old(st).surfaces@.len() && (#[trigger] old(st).surfaces@[i]).sid
                    == display.sid ==> old(st).surfaces@[i].refs < u64::MAX,
        ensures
            final(st).wf(),
            context_new_post(*old(st), *final(st), *display, r),
    {
        let hglrc = st.platform.create_context(display.hdc());
        if hglrc == 0 {
            return Err(Error::ContextCreationFailed);
        }
        let _ = bump_surface_ref(&mut st.surfaces, display.sid);
        Ok(
            WGLContext {
                hglrc,
                display: WGLDisplay {
                    handle: WGLDisplayHandle {
                        hdc: display.handle.hdc,
                        hwnd: display.handle.hwnd,
                        owned: display.handle.owned,
                    },
                    sid: display.sid,
                },
            },
        )
    }

    /// Bind this context and its surface as current for the calling thread.
    /// The error is deliberately minimal: the native return code does not
    /// distinguish the causes, and callers treat any failure as "cannot
    /// render this frame".
    pub fn make_current(&self, st: &mut GlState) -> (r: Result<(), MakeCurrentError>)
        requires
            old(st).wf(),
        ensures
            final(st).wf(),
            make_current_post(*old(st), *final(st), *self, r),
    {
        if !st.is_initialized() {
            return Err(MakeCurrentError);
        }
        if st.platform.make_current(self.display.handle.hdc, self.hglrc) {
            Ok(())
        } else {
            Err(MakeCurrentError)
        }
    }

    /// Whether this context is the calling thread's current context.  A
    /// point-in-time check: another thread can change the binding right after
    /// it returns, so it is no substitute for external synchronization.
    pub fn is_current(&self, st: &GlState) -> (r: bool)
        ensures
            r == (st.platform.current_context == self.hglrc),
    {
        st.platform.get_current_context() == self.hglrc
    }

    /// Clear the calling thread's current binding.  Needs no context value:
    /// it is a thread-global clear.
    pub fn unbind(st: &mut GlState) -> (r: Result<(), MakeCurrentError>)
        requires
            old(st).wf(),
        ensures
            final(st).wf(),
            unbind_post(*old(st), *final(st), r),
    {
        if !st.is_initialized() {
            return Err(MakeCurrentError);
        }
        let _ = st.platform.make_current(0, 0);
        Ok(())
    }

    /// The drawable surface the context renders to.
    pub fn display(&self) -> (d: &WGLDisplay)
        ensures
            *d == self.display,
    {
        &self.display
    }

    /// Present the back buffer of the context's surface.
    pub fn swap_buffers(&self, st: &GlState) -> (r: bool)
        ensures
            r == st.platform.known_dcs@.contains(self.display.handle.hdc),
    {
        self.display.swap_buffers(st)
    }

    /// The raw rendering-context handle.
    pub fn hglrc(&self) -> (h: isize)
        ensures
            h == self.hglrc,
    {
        self.hglrc
    }

    /// Destroy the context: unbind it first when it is the thread's current
    /// context, then delete the native handle, then give back its share of
    /// the surface.  Taking the context by value makes this happen exactly
    /// once per context.
    pub fn release(self, st: &mut GlState)
        requires
            old(st).wf(),
            old(st).platform.dc_release_count < u64::MAX,
            old(st).platform.context_delete_count < u64::MAX,
        ensures
            final(st).wf(),
            context_release_post(*old(st), *final(st), self),
    {
        if st.platform.get_current_context() == self.hglrc {
            let _ = st.platform.make_current(0, 0);
        }
        let _ = st.platform.delete_context(self.hglrc);
        release_surface_ref(st, self.display.sid);
    }
}

} // verus!
