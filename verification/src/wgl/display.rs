//! Drawable surfaces: window-backed or caller-supplied device contexts.
//!
//! A surface acquired from a window is owned by the subsystem and released
//! natively exactly once, when its last share goes; a caller-supplied surface
//! is never released by the subsystem.  Sharing is explicit: [`WGLDisplay::share`]
//! grants one more share, [`WGLDisplay::release`] gives one back.

use vstd::prelude::*;

use crate::wgl::errors::Error;
use crate::wgl::platform::{
    lemma_remove_pushed, spec_choose_pixel_format, Platform, PixelFormatDescriptor,
    DC_HANDLE_BASE, PFD_DOUBLEBUFFER, PFD_DRAW_TO_WINDOW, PFD_MAIN_PLANE, PFD_SUPPORT_OPENGL,
    PFD_TYPE_RGBA,
};
use crate::wgl::state::{
    bump_post, bump_surface_ref, has_sid, init_gl_library, release_ref_post,
    release_surface_ref, spec_init_result, spec_resolve, GlState, SurfaceEntry,
};

verus! {

/// The native handles of one drawable surface.
#[derive(Debug, Clone, Copy, PartialEq, Eq, Structural)]
pub struct WGLDisplayHandle {
    /// The device context the surface draws to.
    pub hdc: isize,
    /// The window behind the surface, if any.
    pub hwnd: Option<isize>,
    /// Whether the subsystem acquired the device context and must release it.
    pub owned: bool,
}

/// One share of a drawable surface.  Values are deliberately not cloneable:
/// a new share is granted only by [`WGLDisplay::share`] (or by building a
/// rendering context over the surface), and each share is given back exactly
/// once by [`WGLDisplay::release`].
#[derive(Debug)]
pub struct WGLDisplay {
    /// The native handles of the surface.
    pub handle: WGLDisplayHandle,
    /// The registry identity of the surface.
    pub sid: u64,
}

/// The pixel format a window surface requests: 32-bit color, 24-bit depth,
/// 8-bit stencil, double-buffered, drawing to a window with 3D support.
pub open spec fn spec_window_pixel_format() -> PixelFormatDescriptor {
    PixelFormatDescriptor {
        n_size: 40,
        n_version: 1,
        dw_flags: PFD_DRAW_TO_WINDOW | PFD_SUPPORT_OPENGL | PFD_DOUBLEBUFFER,
        i_pixel_type: PFD_TYPE_RGBA,
        c_color_bits: 32,
        c_red_bits: 0,
        c_red_shift: 0,
        c_green_bits: 0,
        c_green_shift: 0,
        c_blue_bits: 0,
        c_blue_shift: 0,
        c_alpha_bits: 0,
        c_alpha_shift: 0,
        c_accum_bits: 0,
        c_accum_red_bits: 0,
        c_accum_green_bits: 0,
        c_accum_blue_bits: 0,
        c_accum_alpha_bits: 0,
        c_depth_bits: 24,
        c_stencil_bits: 8,
        c_aux_buffers: 0,
        i_layer_type: PFD_MAIN_PLANE,
        b_reserved: 0,
        dw_layer_mask: 0,
        dw_visible_mask: 0,
        dw_damage_mask: 0,
    }
}

/// Build the window pixel format request.
pub fn window_pixel_format() -> (pfd: PixelFormatDescriptor)
    ensures
        pfd == spec_window_pixel_format(),
{
    PixelFormatDescriptor {
        n_size: 40,
        n_version: 1,
        dw_flags: PFD_DRAW_TO_WINDOW | PFD_SUPPORT_OPENGL | PFD_DOUBLEBUFFER,
        i_pixel_type: PFD_TYPE_RGBA,
        c_color_bits: 32,
        c_red_bits: 0,
        c_red_shift: 0,
        c_green_bits: 0,
        c_green_shift: 0,
        c_blue_bits: 0,
        c_blue_shift: 0,
        c_alpha_bits: 0,
        c_alpha_shift: 0,
        c_accum_bits: 0,
        c_accum_red_bits: 0,
        c_accum_green_bits: 0,
        c_accum_blue_bits: 0,
        c_accum_alpha_bits: 0,
        c_depth_bits: 24,
        c_stencil_bits: 8,
        c_aux_buffers: 0,
        i_layer_type: PFD_MAIN_PLANE,
        b_reserved: 0,
        dw_layer_mask: 0,
        dw_visible_mask: 0,
        dw_damage_mask: 0,
    }
}

/// The runtime can satisfy the window pixel format request.
pub open spec fn spec_window_format_ok(p: Platform) -> bool {
    spec_choose_pixel_format(p, spec_window_pixel_format()) != 0
}

/// The resolver cache and the open count after an operation that begins by
/// initializing the library.
pub open spec fn lib_effects(pre: GlState, post: GlState) -> bool {
    match pre.library.outcome {
        Some(_) => {
            &&& post.library.outcome == pre.library.outcome
            &&& post.platform.open_count == pre.platform.open_count
        },
        None => {
            &&& post.library.outcome == Some(spec_resolve(pre.platform))
            &&& post.platform.open_count == pre.platform.open_count + 1
        },
    }
}

/// Nothing of the state changed but possibly the resolver cache and the open
/// count.
pub open spec fn state_unchanged_but_lib(pre: GlState, post: GlState) -> bool {
    &&& Platform::eq_except_open(pre.platform, post.platform)
    &&& post.surfaces == pre.surfaces
    &&& post.next_sid == pre.next_sid
}

/// The platform fields a surface operation never touches.
pub open spec fn eq_rest_wgl(ppre: Platform, ppost: Platform) -> bool {
    &&& ppost.runtime == ppre.runtime
    &&& ppost.current_context == ppre.current_context
    &&& ppost.current_dc == ppre.current_dc
    &&& ppost.live_contexts == ppre.live_contexts
    &&& ppost.next_context == ppre.next_context
    &&& ppost.context_delete_count == ppre.context_delete_count
}

/// What one `from_window` call does.  After initializing the resolver it
/// fails exactly on: a failed initialization, the null window handle, or a
/// pixel format request the runtime cannot satisfy (never a silently
/// downgraded format).  On success a fresh, owned, window-backed surface is
/// registered with one share.
pub open spec fn from_window_post(
    pre: GlState,
    post: GlState,
    hwnd: isize,
    r: Result<WGLDisplay, Error>,
) -> bool {
    let ir = spec_init_result(pre);
    &&& lib_effects(pre, post)
    &&& match ir {
        Err(e) => {
            &&& r == Err::<WGLDisplay, Error>(e)
            &&& state_unchanged_but_lib(pre, post)
        },
        Ok(_) => {
            if hwnd == 0 {
                &&& r == Err::<WGLDisplay, Error>(Error::GetDCFailed)
                &&& state_unchanged_but_lib(pre, post)
            } else {
                let dc = pre.platform.next_dc;
                if !spec_window_format_ok(pre.platform) {
                    &&& r == Err::<WGLDisplay, Error>(Error::ChoosePixelFormatFailed)
                    &&& post.platform.next_dc == pre.platform.next_dc + 1
                    &&& post.platform.dc_release_count == pre.platform.dc_release_count + 1
                    &&& post.platform.known_dcs@ == pre.platform.known_dcs@
                    &&& post.platform.formatted_dcs@ == pre.platform.formatted_dcs@
                    &&& eq_rest_wgl(pre.platform, post.platform)
                    &&& post.surfaces == pre.surfaces
                    &&& post.next_sid == pre.next_sid
                } else {
                    &&& r == Ok::<WGLDisplay, Error>(
                        WGLDisplay {
                            handle: WGLDisplayHandle { hdc: dc, hwnd: Some(hwnd), owned: true },
                            sid: pre.next_sid,
                        },
                    )
                    &&& post.platform.next_dc == pre.platform.next_dc + 1
                    &&& post.platform.known_dcs@ == pre.platform.known_dcs@.push(dc)
                    &&& post.platform.formatted_dcs@ == pre.platform.formatted_dcs@.push(dc)
                    &&& post.platform.dc_release_count == pre.platform.dc_release_count
                    &&& eq_rest_wgl(pre.platform, post.platform)
                    &&& post.surfaces@ == pre.surfaces@.push(
                        SurfaceEntry {
                            sid: pre.next_sid,
                            hdc: dc,
                            hwnd,
                            owned: true,
                            refs: 1,
                        },
                    )
                    &&& post.next_sid == pre.next_sid + 1
                }
            }
        },
    }
}

/// What one `from_raw` call does: after initializing the resolver it fails
/// exactly on a failed initialization or a null handle; otherwise the
/// caller-owned surface is registered, not owned by the subsystem, with one
/// share.  No native call is made for it, now or ever.
pub open spec fn from_raw_post(
    pre: GlState,
    post: GlState,
    hdc: isize,
    r: Result<WGLDisplay, Error>,
) -> bool {
    let ir = spec_init_result(pre);
    &&& lib_effects(pre, post)
    &&& match ir {
        Err(e) => {
            &&& r == Err::<WGLDisplay, Error>(e)
            &&& state_unchanged_but_lib(pre, post)
        },
        Ok(_) => {
            if hdc == 0 {
                &&& r == Err::<WGLDisplay, Error>(Error::GetDCFailed)
                &&& state_unchanged_but_lib(pre, post)
            } else {
                &&& r == Ok::<WGLDisplay, Error>(
                    WGLDisplay {
                        handle: WGLDisplayHandle { hdc, hwnd: None, owned: false },
                        sid: pre.next_sid,
                    },
                )
                &&& Platform::eq_except_open(pre.platform, post.platform)
                &&& post.surfaces@ == pre.surfaces@.push(
                    SurfaceEntry { sid: pre.next_sid, hdc, hwnd: 0, owned: false, refs: 1 },
                )
                &&& post.next_sid == pre.next_sid + 1
            }
        },
    }
}

impl WGLDisplay {
    /// Acquire a drawable surface for a window and negotiate its pixel
    /// format.  The caller must keep the window valid for the surface's whole
    /// life; the subsystem does not validate that.
    pub fn from_window(st: &mut GlState, hwnd: isize) -> (r: Result<WGLDisplay, Error>)
        requires
            old(st).wf(),
            old(st).platform.open_count < u64::MAX,
            old(st).platform.next_dc < isize::MAX,
            old(st).platform.dc_release_count < u64::MAX,
            old(st).next_sid < u64::MAX,
        ensures
            final(st).wf(),
            from_window_post(*old(st), *final(st), hwnd, r),
    {
        if let Err(e) = init_gl_library(st) {
            return Err(e);
        }
        let hdc = st.platform.get_dc(hwnd);
        if hdc == 0 {
            return Err(Error::GetDCFailed);
        }
        let pfd = window_pixel_format();
        let fmt = st.platform.choose_pixel_format(&pfd);
        if fmt == 0 {
            proof {
                assert(forall|i: int|
                    0 <= i < st.platform.known_dcs@.len() - 1
                        ==> st.platform.known_dcs@[i] == old(st).platform.known_dcs@[i]);
                assert(forall|i: int|
                    0 <= i < old(st).platform.known_dcs@.len()
                        ==> old(st).platform.known_dcs@[i] != hdc);
                assert(!old(st).platform.known_dcs@.contains(hdc));
                assert(forall|i: int|
                    0 <= i < st.platform.formatted_dcs@.len()
                        ==> st.platform.formatted_dcs@[i] != hdc);
                assert(!st.platform.formatted_dcs@.contains(hdc));
            }
            let _ = st.platform.release_dc(hwnd, hdc);
            proof {
                lemma_remove_pushed(old(st).platform.known_dcs@, st.platform.known_dcs@, hdc);
            }
            return Err(Error::ChoosePixelFormatFailed);
        }
        if !st.platform.set_pixel_format(hdc, fmt, &pfd) {
            // A fresh device context always accepts the chosen format; this
            // mirrors the native call sequence but cannot be reached.
            proof {
                assert(st.platform.known_dcs@.contains(hdc)) by {
                    assert(st.platform.known_dcs@[st.platform.known_dcs@.len() - 1] == hdc);
                }
                assert(forall|i: int|
                    0 <= i < st.platform.formatted_dcs@.len()
                        ==> st.platform.formatted_dcs@[i] != hdc);
                assert(!st.platform.formatted_dcs@.contains(hdc));
                assert(false);
            }
            let _ = st.platform.release_dc(hwnd, hdc);
            return Err(Error::SetPixelFormatFailed);
        }
        let sid = st.next_sid;
        st.next_sid = st.next_sid + 1;
        proof {
            assert(forall|i: int|
                0 <= i < st.surfaces@.len() ==> (#[trigger] st.surfaces@[i]).sid != sid);
        }
        st.surfaces.push(SurfaceEntry { sid, hdc, hwnd, owned: true, refs: 1 });
        proof {
            let s = st.surfaces@;
            assert(forall|i: int| 0 <= i < s.len() - 1 ==> s[i] == old(st).surfaces@[i]);
        }
        Ok(
            WGLDisplay {
                handle: WGLDisplayHandle { hdc, hwnd: Some(hwnd), owned: true },
                sid,
            },
        )
    }

    /// Wrap a caller-owned, already-format-configured device context.  The
    /// caller retains ownership: the subsystem never releases it.
    pub fn from_raw(st: &mut GlState, hdc: isize) -> (r: Result<WGLDisplay, Error>)
        requires
            old(st).wf(),
            old(st).platform.open_count < u64::MAX,
            old(st).next_sid < u64::MAX,
        ensures
            final(st).wf(),
            from_raw_post(*old(st), *final(st), hdc, r),
    {
        if let Err(e) = init_gl_library(st) {
            return Err(e);
        }
        if hdc == 0 {
            return Err(Error::GetDCFailed);
        }
        let sid = st.next_sid;
        st.next_sid = st.next_sid + 1;
        proof {
            assert(forall|i: int|
                0 <= i < st.surfaces@.len() ==> (#[trigger] st.surfaces@[i]).sid != sid);
        }
        st.surfaces.push(SurfaceEntry { sid, hdc, hwnd: 0, owned: false, refs: 1 });
        proof {
            let s = st.surfaces@;
            assert(forall|i: int| 0 <= i < s.len() - 1 ==> s[i] == old(st).surfaces@[i]);
        }
        Ok(WGLDisplay { handle: WGLDisplayHandle { hdc, hwnd: None, owned: false }, sid })
    }

    /// The raw device-context handle.
    pub fn hdc(&self) -> (dc: isize)
        ensures
            dc == self.handle.hdc,
    {
        self.handle.hdc
    }

    /// Present the back buffer.  Returns success, not an error: `false`
    /// typically means the surface is gone and should be re-created.
    pub fn swap_buffers(&self, st: &GlState) -> (r: bool)
        ensures
            r == st.platform.known_dcs@.contains(self.handle.hdc),
    {
        st.platform.swap_buffers(self.handle.hdc)
    }

    /// Grant one more share of the surface.  The new value denotes the same
    /// surface and must itself be released.
    pub fn share(&self, st: &mut GlState) -> (d: WGLDisplay)
        requires
            old(st).wf(),
            forall|i: int|
                0 <= i < old(st).surfaces@.len() && (#[trigger] old(st).surfaces@[i]).sid
                    == self.sid ==> old(st).surfaces@[i].refs < u64::MAX,
        ensures
            final(st).wf(),
            d.handle == self.handle,
            d.sid == self.sid,
            bump_post(old(st).surfaces@, final(st).surfaces@, self.sid),
            final(st).platform == old(st).platform,
            final(st).library == old(st).library,
            final(st).next_sid == old(st).next_sid,
    {
        let _ = bump_surface_ref(&mut st.surfaces, self.sid);
        WGLDisplay {
            handle: WGLDisplayHandle {
                hdc: self.handle.hdc,
                hwnd: self.handle.hwnd,
                owned: self.handle.owned,
            },
            sid: self.sid,
        }
    }

    /// Give this share of the surface back.  When it is the last share of a
    /// surface the subsystem owns, the one native release happens now; a
    /// surface wrapped from a raw handle is never released natively.
    pub fn release(self, st: &mut GlState)
        requires
            old(st).wf(),
            old(st).platform.dc_release_count < u64::MAX,
        ensures
            final(st).wf(),
            release_ref_post(*old(st), *final(st), self.sid),
    {
        release_surface_ref(st, self.sid);
    }
}

} // verus!
