//! Model of the host graphics platform.
//!
//! A [`Platform`] value stands for everything on the native side of the
//! subsystem: the graphics runtime library (present or not), its exported
//! entry points and extension symbols, the device contexts that exist, the
//! rendering contexts that exist, and the calling thread's current binding.
//! Every native call the subsystem makes is a total, fully specified
//! operation on this value, so the logic above it can be verified and tests
//! can inject any runtime they need.

use vstd::prelude::*;

verus! {

/// Window device contexts are allocated from this base upward; device
/// contexts supplied by the caller must lie below it, so the two never
/// collide.
pub const DC_HANDLE_BASE: isize = 0x1000_0000;

/// Pixel format capability bit: the format can draw to a window.
pub const PFD_DRAW_TO_WINDOW: u32 = 0x00000004;

/// Pixel format capability bit: the format supports 3D rendering.
pub const PFD_SUPPORT_OPENGL: u32 = 0x00000020;

/// Pixel format capability bit: the format is double-buffered.
pub const PFD_DOUBLEBUFFER: u32 = 0x00000001;

/// Pixel type: red, green, blue, alpha.
pub const PFD_TYPE_RGBA: u8 = 0;

/// Layer type: the main drawing plane.
pub const PFD_MAIN_PLANE: u8 = 0;

/// A named entry point of the runtime.  An address of zero means null.
pub struct Symbol {
    pub name: String,
    pub addr: usize,
}

/// What the host's graphics runtime library offers once opened: the export
/// addresses of the six core entry points the subsystem needs (zero for a
/// missing export), the tables behind the two lookup paths, and the pixel
/// format capabilities of the driver.
pub struct Runtime {
    /// Export address of the extension-query entry point.
    pub query_proc_addr: usize,
    /// Export address of the context-creation entry point.
    pub create_context_addr: usize,
    /// Export address of the context-deletion entry point.
    pub delete_context_addr: usize,
    /// Export address of the make-current entry point.
    pub make_current_addr: usize,
    /// Export address of the current-context query.
    pub get_current_context_addr: usize,
    /// Export address of the current-drawable query.
    pub get_current_dc_addr: usize,
    /// What the extension-query path resolves, sentinel values included.
    pub extension_symbols: Vec<Symbol>,
    /// What direct export lookup resolves.
    pub core_symbols: Vec<Symbol>,
    /// Capability bits the driver's pixel formats can satisfy.
    pub supported_flags: u32,
    /// Largest color depth a format of the driver offers.
    pub max_color_bits: u8,
    /// Largest depth-buffer size a format of the driver offers.
    pub max_depth_bits: u8,
    /// Largest stencil size a format of the driver offers.
    pub max_stencil_bits: u8,
}

/// A pixel format request: color/depth/stencil sizes, buffering and
/// capability flags.
pub struct PixelFormatDescriptor {
    pub n_size: u16,
    pub n_version: u16,
    pub dw_flags: u32,
    pub i_pixel_type: u8,
    pub c_color_bits: u8,
    pub c_red_bits: u8,
    pub c_red_shift: u8,
    pub c_green_bits: u8,
    pub c_green_shift: u8,
    pub c_blue_bits: u8,
    pub c_blue_shift: u8,
    pub c_alpha_bits: u8,
    pub c_alpha_shift: u8,
    pub c_accum_bits: u8,
    pub c_accum_red_bits: u8,
    pub c_accum_green_bits: u8,
    pub c_accum_blue_bits: u8,
    pub c_accum_alpha_bits: u8,
    pub c_depth_bits: u8,
    pub c_stencil_bits: u8,
    pub c_aux_buffers: u8,
    pub i_layer_type: u8,
    pub b_reserved: u8,
    pub dw_layer_mask: u32,
    pub dw_visible_mask: u32,
    pub dw_damage_mask: u32,
}

/// The state of the native side, as the subsystem can observe it.
pub struct Platform {
    /// The graphics runtime library of the host, or `None` when the host has
    /// none to open.
    pub runtime: Option<Runtime>,
    /// How many times the library has been opened (a test hook).
    pub open_count: u64,
    /// The rendering context current on the calling thread; zero for none.
    pub current_context: isize,
    /// The drawable current on the calling thread; zero for none.
    pub current_dc: isize,
    /// Handles of the rendering contexts that exist.
    pub live_contexts: Vec<isize>,
    /// Next fresh rendering-context handle.
    pub next_context: isize,
    /// Device contexts that exist natively (window ones and caller-supplied
    /// ones alike).
    pub known_dcs: Vec<isize>,
    /// Device contexts whose pixel format has been set.  Caller-supplied
    /// device contexts arrive already configured.
    pub formatted_dcs: Vec<isize>,
    /// Next fresh window device-context handle.
    pub next_dc: isize,
    /// How many native device-context releases have happened (a test hook).
    pub dc_release_count: u64,
    /// How many native context deletions have happened (a test hook).
    pub context_delete_count: u64,
}

/// `i` is the position of the first occurrence of `x` in `s`.
pub open spec fn is_first_at(s: Seq<isize>, x: isize, i: int) -> bool {
    &&& 0 <= i < s.len()
    &&& s[i] == x
    &&& forall|j: int| 0 <= j < i ==> s[j] != x
}

/// `post` is `pre` with the first occurrence of `x` removed (and `pre`
/// unchanged when `x` does not occur).
pub open spec fn removed_first(pre: Seq<isize>, post: Seq<isize>, x: isize) -> bool {
    if pre.contains(x) {
        exists|i: int| is_first_at(pre, x, i) && post == pre.remove(i)
    } else {
        post == pre
    }
}

/// Address a name resolves to in a symbol table: the first entry with that
/// name, or null when there is none.
pub open spec fn sym_lookup(t: Seq<Symbol>, name: Seq<char>) -> usize
    decreases t.len(),
{
    if t.len() == 0 {
        0
    } else if t[0].name@ == name {
        t[0].addr
    } else {
        sym_lookup(t.drop_first(), name)
    }
}

/// The runtime has a pixel format satisfying the request: every requested
/// capability bit is supported and the requested sizes fit.  Nothing is ever
/// silently downgraded.
pub open spec fn pfd_satisfiable(rt: Runtime, pfd: PixelFormatDescriptor) -> bool {
    &&& pfd.dw_flags & rt.supported_flags == pfd.dw_flags
    &&& pfd.c_color_bits <= rt.max_color_bits
    &&& pfd.c_depth_bits <= rt.max_depth_bits
    &&& pfd.c_stencil_bits <= rt.max_stencil_bits
}

impl Platform {
    /// Well-formedness: handles are positive and below their allocation
    /// cursors, the handle sets hold no duplicates, and the current context,
    /// if any, exists.
    pub open spec fn wf(&self) -> bool {
        &&& self.next_context >= 1
        &&& forall|i: int|
            0 <= i < self.live_contexts@.len() ==> 0 < #[trigger] self.live_contexts@[i]
                < self.next_context
        &&& self.live_contexts@.no_duplicates()
        &&& self.next_dc >= DC_HANDLE_BASE
        &&& forall|i: int|
            0 <= i < self.known_dcs@.len() ==> 0 < #[trigger] self.known_dcs@[i] < self.next_dc
        &&& self.known_dcs@.no_duplicates()
        &&& forall|i: int|
            0 <= i < self.formatted_dcs@.len() ==> 0 < #[trigger] self.formatted_dcs@[i]
                < self.next_dc
        &&& self.formatted_dcs@.no_duplicates()
        &&& (self.current_context == 0 || self.live_contexts@.contains(self.current_context))
    }

    /// All fields agree except the open count.
    pub open spec fn eq_except_open(pre: Platform, post: Platform) -> bool {
        &&& post.runtime == pre.runtime
        &&& post.current_context == pre.current_context
        &&& post.current_dc == pre.current_dc
        &&& post.live_contexts == pre.live_contexts
        &&& post.next_context == pre.next_context
        &&& post.known_dcs == pre.known_dcs
        &&& post.formatted_dcs == pre.formatted_dcs
        &&& post.next_dc == pre.next_dc
        &&& post.dc_release_count == pre.dc_release_count
        &&& post.context_delete_count == pre.context_delete_count
    }

    /// All fields agree except the device-context sets, their allocation
    /// cursor and the release count.
    pub open spec fn eq_except_dcs(pre: Platform, post: Platform) -> bool {
        &&& post.runtime == pre.runtime
        &&& post.open_count == pre.open_count
        &&& post.current_context == pre.current_context
        &&& post.current_dc == pre.current_dc
        &&& post.live_contexts == pre.live_contexts
        &&& post.next_context == pre.next_context
        &&& post.context_delete_count == pre.context_delete_count
    }

    /// All fields agree except the context set, its allocation cursor and the
    /// deletion count.
    pub open spec fn eq_except_contexts(pre: Platform, post: Platform) -> bool {
        &&& post.runtime == pre.runtime
        &&& post.open_count == pre.open_count
        &&& post.current_context == pre.current_context
        &&& post.current_dc == pre.current_dc
        &&& post.known_dcs == pre.known_dcs
        &&& post.formatted_dcs == pre.formatted_dcs
        &&& post.next_dc == pre.next_dc
        &&& post.dc_release_count == pre.dc_release_count
    }

    /// All fields agree except the current binding.
    pub open spec fn eq_except_current(pre: Platform, post: Platform) -> bool {
        &&& post.runtime == pre.runtime
        &&& post.open_count == pre.open_count
        &&& post.live_contexts == pre.live_contexts
        &&& post.next_context == pre.next_context
        &&& post.known_dcs == pre.known_dcs
        &&& post.formatted_dcs == pre.formatted_dcs
        &&& post.next_dc == pre.next_dc
        &&& post.dc_release_count == pre.dc_release_count
        &&& post.context_delete_count == pre.context_delete_count
    }

    /// A platform on a host without a graphics runtime library.
    pub fn unavailable() -> (p: Platform)
        ensures
            p.runtime is None,
            p.open_count == 0,
            p.current_context == 0,
            p.current_dc == 0,
            p.live_contexts@ =~= Seq::<isize>::empty(),
            p.next_context == 1,
            p.known_dcs@ =~= Seq::<isize>::empty(),
            p.formatted_dcs@ =~= Seq::<isize>::empty(),
            p.next_dc == DC_HANDLE_BASE,
            p.dc_release_count == 0,
            p.context_delete_count == 0,
            p.wf(),
    {
        Platform {
            runtime: None,
            open_count: 0,
            current_context: 0,
            current_dc: 0,
            live_contexts: Vec::new(),
            next_context: 1,
            known_dcs: Vec::new(),
            formatted_dcs: Vec::new(),
            next_dc: DC_HANDLE_BASE,
            dc_release_count: 0,
            context_delete_count: 0,
        }
    }

    /// A platform whose runtime is present.  `external_dcs` are the
    /// caller-owned, already-configured device contexts that exist on the
    /// host; they must be distinct, positive and below the window allocation
    /// base.
    pub fn with_runtime(runtime: Runtime, external_dcs: Vec<isize>) -> (p: Platform)
        requires
            external_dcs@.no_duplicates(),
            forall|i: int|
                0 <= i < external_dcs@.len() ==> 0 < #[trigger] external_dcs@[i]
                    < DC_HANDLE_BASE,
        ensures
            p.runtime == Some(runtime),
            p.open_count == 0,
            p.current_context == 0,
            p.current_dc == 0,
            p.live_contexts@ =~= Seq::<isize>::empty(),
            p.next_context == 1,
            p.known_dcs@ == external_dcs@,
            p.formatted_dcs@ == external_dcs@,
            p.next_dc == DC_HANDLE_BASE,
            p.dc_release_count == 0,
            p.context_delete_count == 0,
            p.wf(),
    {
        let known = external_dcs.clone();
        Platform {
            runtime: Some(runtime),
            open_count: 0,
            current_context: 0,
            current_dc: 0,
            live_contexts: Vec::new(),
            next_context: 1,
            known_dcs: known,
            formatted_dcs: external_dcs,
            next_dc: DC_HANDLE_BASE,
            dc_release_count: 0,
            context_delete_count: 0,
        }
    }

    /// Open the graphics runtime library: one more open is recorded, and the
    /// attempt succeeds exactly when the host has the library.
    pub fn open_library(&mut self) -> (ok: bool)
        requires
            old(self).open_count < u64::MAX,
        ensures
            ok == (old(self).runtime is Some),
            final(self).open_count == old(self).open_count + 1,
            Platform::eq_except_open(*old(self), *final(self)),
            old(self).wf() ==> final(self).wf(),
    {
        self.open_count = self.open_count + 1;
        self.runtime.is_some()
    }

    /// Acquire the device context of a window.  Fails (returns zero) exactly
    /// on the null window handle; otherwise a fresh device context is
    /// allocated and recorded.
    pub fn get_dc(&mut self, hwnd: isize) -> (dc: isize)
        requires
            old(self).wf(),
            old(self).next_dc < isize::MAX,
        ensures
            final(self).wf(),
            hwnd == 0 ==> dc == 0 && *final(self) == *old(self),
            hwnd != 0 ==> {
                &&& dc == old(self).next_dc
                &&& final(self).next_dc == old(self).next_dc + 1
                &&& final(self).known_dcs@ == old(self).known_dcs@.push(dc)
                &&& final(self).formatted_dcs == old(self).formatted_dcs
                &&& final(self).runtime == old(self).runtime
                &&& final(self).open_count == old(self).open_count
                &&& final(self).current_context == old(self).current_context
                &&& final(self).current_dc == old(self).current_dc
                &&& final(self).live_contexts == old(self).live_contexts
                &&& final(self).next_context == old(self).next_context
                &&& final(self).dc_release_count == old(self).dc_release_count
                &&& final(self).context_delete_count == old(self).context_delete_count
            },
    {
        if hwnd == 0 {
            return 0;
        }
        let dc = self.next_dc;
        self.next_dc = self.next_dc + 1;
        proof {
            assert(forall|i: int|
                0 <= i < self.known_dcs@.len() ==> #[trigger] self.known_dcs@[i] != dc);
            assert(!self.known_dcs@.contains(dc));
        }
        self.known_dcs.push(dc);
        proof {
            let s = self.known_dcs@;
            assert(forall|i: int, j: int|
                0 <= i < j < s.len() ==> s[i] != s[j]) by {
                assert(forall|i: int|
                    0 <= i < s.len() - 1 ==> s[i] == old(self).known_dcs@[i]);
            }
        }
        dc
    }

    /// Release a device context.  Succeeds exactly when the device context
    /// exists; it is then forgotten (format configuration included) and one
    /// more native release is recorded.
    pub fn release_dc(&mut self, hwnd: isize, dc: isize) -> (r: bool)
        requires
            old(self).wf(),
            old(self).dc_release_count < u64::MAX,
        ensures
            final(self).wf(),
            r == old(self).known_dcs@.contains(dc),
            !r ==> *final(self) == *old(self),
            r ==> {
                &&& removed_first(old(self).known_dcs@, final(self).known_dcs@, dc)
                &&& removed_first(old(self).formatted_dcs@, final(self).formatted_dcs@, dc)
                &&& final(self).dc_release_count == old(self).dc_release_count + 1
                &&& Platform::eq_except_dcs(*old(self), *final(self))
                &&& final(self).next_dc == old(self).next_dc
            },
    {
        let _ = hwnd;
        if contains_handle(&self.known_dcs, dc) {
            let _ = remove_handle(&mut self.known_dcs, dc);
            let _ = remove_handle(&mut self.formatted_dcs, dc);
            self.dc_release_count = self.dc_release_count + 1;
            proof {
                lemma_removed_first_wf(old(self).known_dcs@, self.known_dcs@, dc, self.next_dc);
                lemma_removed_first_wf(
                    old(self).formatted_dcs@,
                    self.formatted_dcs@,
                    dc,
                    self.next_dc,
                );
            }
            true
        } else {
            false
        }
    }

    /// Choose a pixel format for the request: a positive format index when
    /// the runtime can satisfy the request exactly, zero otherwise.
    pub fn choose_pixel_format(&self, pfd: &PixelFormatDescriptor) -> (fmt: i32)
        ensures
            fmt == spec_choose_pixel_format(*self, *pfd),
    {
        match &self.runtime {
            None => 0,
            Some(rt) => {
                if pfd.dw_flags & rt.supported_flags == pfd.dw_flags
                    && pfd.c_color_bits <= rt.max_color_bits
                    && pfd.c_depth_bits <= rt.max_depth_bits
                    && pfd.c_stencil_bits <= rt.max_stencil_bits {
                    1
                } else {
                    0
                }
            },
        }
    }

    /// Apply a chosen pixel format to a device context.  Succeeds exactly
    /// when the runtime is present, the device context exists, no format has
    /// been set on it yet, and the format index is valid.
    pub fn set_pixel_format(&mut self, dc: isize, fmt: i32, pfd: &PixelFormatDescriptor) -> (ok:
        bool)
        requires
            old(self).wf(),
        ensures
            final(self).wf(),
            ok == spec_set_pixel_format_ok(*old(self), dc, fmt),
            !ok ==> *final(self) == *old(self),
            ok ==> {
                &&& final(self).formatted_dcs@ == old(self).formatted_dcs@.push(dc)
                &&& Platform::eq_except_dcs(*old(self), *final(self))
                &&& final(self).known_dcs == old(self).known_dcs
                &&& final(self).next_dc == old(self).next_dc
                &&& final(self).dc_release_count == old(self).dc_release_count
            },
    {
        let _ = pfd;
        if self.runtime.is_some() && fmt >= 1 && contains_handle(&self.known_dcs, dc)
            && !contains_handle(&self.formatted_dcs, dc) {
            proof {
                assert(self.known_dcs@.contains(dc));
                let i = choose|i: int|
                    0 <= i < self.known_dcs@.len() && self.known_dcs@[i] == dc;
                assert(0 < dc < self.next_dc);
                let s = self.formatted_dcs@.push(dc);
                assert(forall|i: int, j: int| 0 <= i < j < s.len() ==> s[i] != s[j]) by {
                    assert(forall|i: int|
                        0 <= i < s.len() - 1 ==> s[i] == self.formatted_dcs@[i]);
                }
            }
            self.formatted_dcs.push(dc);
            true
        } else {
            false
        }
    }

    /// Create a rendering context against a device context.  Returns a fresh
    /// handle exactly when the runtime is present and the device context
    /// exists with a pixel format set; returns zero (the invalid handle)
    /// otherwise.
    pub fn create_context(&mut self, dc: isize) -> (h: isize)
        requires
            old(self).wf(),
            old(self).next_context < isize::MAX,
        ensures
            final(self).wf(),
            (h != 0) == spec_create_context_ok(*old(self), dc),
            h == 0 ==> *final(self) == *old(self),
            h != 0 ==> {
                &&& h == old(self).next_context
                &&& final(self).live_contexts@ == old(self).live_contexts@.push(h)
                &&& final(self).next_context == old(self).next_context + 1
                &&& Platform::eq_except_contexts(*old(self), *final(self))
                &&& final(self).context_delete_count == old(self).context_delete_count
            },
    {
        if self.runtime.is_some() && contains_handle(&self.formatted_dcs, dc) {
            let h = self.next_context;
            self.next_context = self.next_context + 1;
            proof {
                assert(forall|i: int|
                    0 <= i < self.live_contexts@.len() ==> #[trigger] self.live_contexts@[i]
                        != h);
                assert(!self.live_contexts@.contains(h));
            }
            self.live_contexts.push(h);
            proof {
                let s = self.live_contexts@;
                assert(forall|i: int|
                    0 <= i < s.len() - 1 ==> s[i] == old(self).live_contexts@[i]);
                assert(forall|i: int, j: int| 0 <= i < j < s.len() ==> s[i] != s[j]);
                assert(forall|i: int| 0 <= i < s.len() ==> 0 < #[trigger] s[i] < self.next_context);
                if old(self).current_context != 0 {
                    let k = choose|k: int|
                        0 <= k < old(self).live_contexts@.len() && old(
                            self,
                        ).live_contexts@[k] == old(self).current_context;
                    assert(s[k] == old(self).current_context);
                    assert(s.contains(self.current_context));
                }
            }
            h
        } else {
            0
        }
    }

    /// Delete a rendering context.  Succeeds exactly when the context exists
    /// and is not the thread's current context: the platform refuses to
    /// delete a current context.
    pub fn delete_context(&mut self, h: isize) -> (r: bool)
        requires
            old(self).wf(),
            old(self).context_delete_count < u64::MAX,
        ensures
            final(self).wf(),
            r == (old(self).live_contexts@.contains(h) && h != old(self).current_context),
            !r ==> *final(self) == *old(self),
            r ==> {
                &&& removed_first(old(self).live_contexts@, final(self).live_contexts@, h)
                &&& final(self).context_delete_count == old(self).context_delete_count + 1
                &&& Platform::eq_except_contexts(*old(self), *final(self))
                &&& final(self).next_context == old(self).next_context
            },
    {
        if h != self.current_context && contains_handle(&self.live_contexts, h) {
            let _ = remove_handle(&mut self.live_contexts, h);
            self.context_delete_count = self.context_delete_count + 1;
            proof {
                lemma_removed_first_wf(
                    old(self).live_contexts@,
                    self.live_contexts@,
                    h,
                    self.next_context,
                );
                lemma_removed_first_contains(
                    old(self).live_contexts@,
                    self.live_contexts@,
                    h,
                    self.current_context,
                );
            }
            true
        } else {
            false
        }
    }

    /// Bind a (drawable, context) pair as current, or clear the binding when
    /// the context handle is null.  Binding succeeds exactly when the runtime
    /// is present and both handles exist; clearing always succeeds.
    pub fn make_current(&mut self, dc: isize, h: isize) -> (ok: bool)
        requires
            old(self).wf(),
        ensures
            final(self).wf(),
            ok == spec_make_current_ok(*old(self), dc, h),
            !ok ==> *final(self) == *old(self),
            ok ==> {
                &&& final(self).current_context == (if h == 0 { 0isize } else { h })
                &&& final(self).current_dc == (if h == 0 { 0isize } else { dc })
                &&& Platform::eq_except_current(*old(self), *final(self))
            },
    {
        if h == 0 {
            self.current_context = 0;
            self.current_dc = 0;
            true
        } else if self.runtime.is_some() && contains_handle(&self.live_contexts, h)
            && contains_handle(&self.known_dcs, dc) {
            self.current_context = h;
            self.current_dc = dc;
            true
        } else {
            false
        }
    }

    /// The rendering context current on the calling thread; zero for none.
    pub fn get_current_context(&self) -> (h: isize)
        ensures
            h == self.current_context,
    {
        self.current_context
    }

    /// The drawable current on the calling thread; zero for none.
    pub fn get_current_dc(&self) -> (dc: isize)
        ensures
            dc == self.current_dc,
    {
        self.current_dc
    }

    /// Present the back buffer of a drawable: succeeds exactly when the
    /// device context exists.
    pub fn swap_buffers(&self, dc: isize) -> (r: bool)
        ensures
            r == self.known_dcs@.contains(dc),
    {
        contains_handle(&self.known_dcs, dc)
    }

    /// Resolve a name through the extension-query entry point.
    pub fn query_extension(&self, name: &str) -> (addr: usize)
        ensures
            addr == spec_query_extension(*self, name@),
    {
        match &self.runtime {
            None => 0,
            Some(rt) => find_symbol(&rt.extension_symbols, name),
        }
    }

    /// Resolve a name directly in the library's export table.
    pub fn core_symbol(&self, name: &str) -> (addr: usize)
        ensures
            addr == spec_core_symbol(*self, name@),
    {
        match &self.runtime {
            None => 0,
            Some(rt) => find_symbol(&rt.core_symbols, name),
        }
    }
}

/// The format index `choose_pixel_format` returns.
pub open spec fn spec_choose_pixel_format(p: Platform, pfd: PixelFormatDescriptor) -> i32 {
    match p.runtime {
        None => 0,
        Some(rt) => if pfd_satisfiable(rt, pfd) {
            1
        } else {
            0
        },
    }
}

/// When applying a pixel format succeeds.
pub open spec fn spec_set_pixel_format_ok(p: Platform, dc: isize, fmt: i32) -> bool {
    &&& p.runtime is Some
    &&& fmt >= 1
    &&& p.known_dcs@.contains(dc)
    &&& !p.formatted_dcs@.contains(dc)
}

/// When creating a rendering context succeeds.
pub open spec fn spec_create_context_ok(p: Platform, dc: isize) -> bool {
    &&& p.runtime is Some
    &&& p.formatted_dcs@.contains(dc)
}

/// When a make-current call succeeds.
pub open spec fn spec_make_current_ok(p: Platform, dc: isize, h: isize) -> bool {
    ||| h == 0
    ||| (p.runtime is Some && p.live_contexts@.contains(h) && p.known_dcs@.contains(dc))
}

/// What the extension-query path returns for a name.
pub open spec fn spec_query_extension(p: Platform, name: Seq<char>) -> usize {
    match p.runtime {
        None => 0,
        Some(rt) => sym_lookup(rt.extension_symbols@, name),
    }
}

/// What direct export lookup returns for a name.
pub open spec fn spec_core_symbol(p: Platform, name: Seq<char>) -> usize {
    match p.runtime {
        None => 0,
        Some(rt) => sym_lookup(rt.core_symbols@, name),
    }
}

/// Whether a handle vector contains a handle.
pub fn contains_handle(v: &Vec<isize>, x: isize) -> (r: bool)
    ensures
        r == v@.contains(x),
{
    let mut k: usize = 0;
    while k < v.len()
        invariant
            k <= v@.len(),
            forall|j: int| 0 <= j < k ==> v@[j] != x,
        decreases v@.len() - k,
    {
        if v[k] == x {
            assert(v@[k as int] == x);
            return true;
        }
        k = k + 1;
    }
    assert(!v@.contains(x));
    false
}

/// Remove the first occurrence of a handle, reporting whether it was there.
pub fn remove_handle(v: &mut Vec<isize>, x: isize) -> (r: bool)
    ensures
        r == old(v)@.contains(x),
        removed_first(old(v)@, final(v)@, x),
{
    let mut k: usize = 0;
    while k < v.len()
        invariant
            k <= v@.len(),
            v@ == old(v)@,
            forall|j: int| 0 <= j < k ==> v@[j] != x,
        decreases v@.len() - k,
    {
        if v[k] == x {
            let _ = v.remove(k);
            proof {
                assert(is_first_at(old(v)@, x, k as int));
                assert(old(v)@.contains(x));
            }
            return true;
        }
        k = k + 1;
    }
    assert(!v@.contains(x));
    false
}

/// Removing an element keeps every handle bound and the no-duplicates
/// property.
pub proof fn lemma_removed_first_wf(pre: Seq<isize>, post: Seq<isize>, x: isize, bound: isize)
    requires
        removed_first(pre, post, x),
        forall|i: int| 0 <= i < pre.len() ==> 0 < #[trigger] pre[i] < bound,
        pre.no_duplicates(),
    ensures
        forall|i: int| 0 <= i < post.len() ==> 0 < #[trigger] post[i] < bound,
        post.no_duplicates(),
{
    if pre.contains(x) {
        let i = choose|i: int| is_first_at(pre, x, i) && post == pre.remove(i);
        assert(forall|j: int|
            0 <= j < post.len() ==> post[j] == (if j < i {
                pre[j]
            } else {
                pre[j + 1]
            }));
    }
}

/// Removing one handle does not change whether a different handle occurs.
pub proof fn lemma_removed_first_contains(pre: Seq<isize>, post: Seq<isize>, x: isize, y: isize)
    requires
        removed_first(pre, post, x),
        y != x,
    ensures
        post.contains(y) == pre.contains(y),
{
    if pre.contains(x) {
        let i = choose|i: int| is_first_at(pre, x, i) && post == pre.remove(i);
        assert(forall|j: int|
            0 <= j < post.len() ==> post[j] == (if j < i {
                pre[j]
            } else {
                pre[j + 1]
            }));
        if pre.contains(y) {
            let k = choose|k: int| 0 <= k < pre.len() && pre[k] == y;
            if k < i {
                assert(post[k] == y);
            } else {
                assert(k != i);
                assert(post[k - 1] == y);
            }
            assert(post.contains(y));
        }
        if post.contains(y) {
            let k = choose|k: int| 0 <= k < post.len() && post[k] == y;
            if k < i {
                assert(pre[k] == y);
            } else {
                assert(pre[k + 1] == y);
            }
            assert(pre.contains(y));
        }
    }
}

/// Removing a handle just pushed onto a vector that did not contain it
/// restores the vector.
pub proof fn lemma_remove_pushed(s: Seq<isize>, post: Seq<isize>, x: isize)
    requires
        !s.contains(x),
        removed_first(s.push(x), post, x),
    ensures
        post =~= s,
{
    let pre = s.push(x);
    assert(pre[s.len() as int] == x);
    assert(pre.contains(x));
    let i = choose|i: int| is_first_at(pre, x, i) && post == pre.remove(i);
    assert(forall|j: int| 0 <= j < s.len() ==> pre[j] == s[j]);
    if i < s.len() {
        assert(s[i] == x);
        assert(s.contains(x));
        assert(false);
    }
    assert(i == s.len());
    assert(forall|j: int|
        0 <= j < post.len() ==> post[j] == (if j < i {
            pre[j]
        } else {
            pre[j + 1]
        }));
}

/// Look a name up in a symbol table: the address of the first entry with
/// that name, or null.
pub fn find_symbol(t: &Vec<Symbol>, name: &str) -> (addr: usize)
    ensures
        addr == sym_lookup(t@, name@),
{
    let key: String = name.to_owned();
    let mut k: usize = 0;
    proof {
        assert(t@.skip(0) =~= t@);
    }
    while k < t.len()
        invariant
            k <= t@.len(),
            key@ == name@,
            sym_lookup(t@, name@) == sym_lookup(t@.skip(k as int), name@),
        decreases t@.len() - k,
    {
        if t[k].name == key {
            proof {
                assert(t@.skip(k as int)[0] == t@[k as int]);
            }
            return t[k].addr;
        }
        proof {
            assert(t@.skip(k as int)[0] == t@[k as int]);
            assert(t@.skip(k as int).drop_first() =~= t@.skip(k as int + 1));
        }
        k = k + 1;
    }
    proof {
        assert(t@.skip(k as int).len() == 0);
    }
    0
}

} // verus!
