//! The guarantees of the subsystem, stated and proved as laws over the
//! operation contracts.
//!
//! Each proof function below takes states related by the exact postcondition
//! predicate of an operation (what every call of that operation establishes)
//! and derives the guarantee a caller relies on.

use vstd::prelude::*;

use crate::wgl::context::{context_release_post, make_current_post, unbind_post, WGLContext};
use crate::wgl::display::{from_raw_post, from_window_post, spec_window_format_ok, WGLDisplay};
use crate::wgl::errors::{Error, MakeCurrentError};
use crate::wgl::platform::{sym_lookup, Platform, Symbol};
use crate::wgl::state::{
    gpa_post, has_sid, init_post, lemma_sid_index_unique, nodup_sids, sid_entry, spec_gpa,
    spec_init_result, surface_release_clauses, GlState,
};

verus! {

/// One successful bind or unbind of the calling thread.
pub enum BindEvent {
    /// A context with this handle was made current.
    Bind(isize),
    /// The current binding was cleared.
    Unbind,
}

/// The current context after one successful operation.
pub open spec fn apply_event(cur: isize, ev: BindEvent) -> isize {
    match ev {
        BindEvent::Bind(h) => h,
        BindEvent::Unbind => 0,
    }
}

/// The current context after a sequence of successful operations.
pub open spec fn current_after(init: isize, evs: Seq<BindEvent>) -> isize
    decreases evs.len(),
{
    if evs.len() == 0 {
        init
    } else {
        apply_event(current_after(init, evs.drop_last()), evs.last())
    }
}

/// For any sequence of successful `make_current`/`unbind` operations on one
/// thread, the current context — what `is_current` compares against — is
/// exactly the outcome of the most recent one: a context is current iff the
/// last operation bound precisely it.
pub proof fn law_is_current_reflects_latest(init: isize, evs: Seq<BindEvent>, h: isize)
    requires
        evs.len() > 0,
        h != 0,
    ensures
        (current_after(init, evs) == h) == (evs.last() == BindEvent::Bind(h)),
{
    match evs.last() {
        BindEvent::Bind(g) => {
            assert(current_after(init, evs) == g);
        },
        BindEvent::Unbind => {
            assert(current_after(init, evs) == 0);
        },
    }
}

/// Only the most recent operation matters: whatever happened before — and
/// whatever binding the thread started from — the current context after a
/// sequence ending in a given operation is that operation's outcome.
pub proof fn law_latest_operation_wins(
    init1: isize,
    init2: isize,
    evs1: Seq<BindEvent>,
    evs2: Seq<BindEvent>,
    e: BindEvent,
)
    ensures
        current_after(init1, evs1.push(e)) == current_after(init2, evs2.push(e)),
{
    assert(evs1.push(e).drop_last() =~= evs1);
    assert(evs2.push(e).drop_last() =~= evs2);
    assert(evs1.push(e).last() == e);
    assert(evs2.push(e).last() == e);
}

/// A successful `make_current` is a bind event: afterwards this context is
/// the thread's current context.
pub proof fn law_make_current_binds(
    pre: GlState,
    post: GlState,
    ctx: WGLContext,
    r: Result<(), MakeCurrentError>,
)
    requires
        make_current_post(pre, post, ctx, r),
        r is Ok,
        ctx.hglrc != 0,
    ensures
        post.platform.current_context == apply_event(
            pre.platform.current_context,
            BindEvent::Bind(ctx.hglrc),
        ),
        post.platform.current_context == ctx.hglrc,
{
}

/// A successful `unbind` is an unbind event: afterwards no context is
/// current.
pub proof fn law_unbind_clears(pre: GlState, post: GlState, r: Result<(), MakeCurrentError>)
    requires
        unbind_post(pre, post, r),
        r is Ok,
    ensures
        post.platform.current_context == apply_event(
            pre.platform.current_context,
            BindEvent::Unbind,
        ),
        post.platform.current_context == 0,
{
}

/// Binding one context displaces another: after a successful `make_current`
/// of one context, a context with a different handle is not current.
pub proof fn law_bind_exclusive(
    pre: GlState,
    post: GlState,
    a: WGLContext,
    b: WGLContext,
    r: Result<(), MakeCurrentError>,
)
    requires
        make_current_post(pre, post, b, r),
        r is Ok,
        b.hglrc != 0,
        a.hglrc != b.hglrc,
    ensures
        post.platform.current_context == b.hglrc,
        post.platform.current_context != a.hglrc,
{
}

/// Dropping a context that is current on the calling thread leaves the
/// platform's current-context query answering "none": the release unbinds
/// before it deletes, so the current binding never dangles.
pub proof fn law_drop_unbinds_current(pre: GlState, post: GlState, ctx: WGLContext)
    requires
        context_release_post(pre, post, ctx),
        pre.platform.current_context == ctx.hglrc,
    ensures
        post.platform.current_context == 0,
        post.platform.current_dc == 0,
{
}

/// Giving back a share of a surface the subsystem does not own never
/// triggers a native release, last share or not.
pub proof fn law_release_unowned_no_native(pre: GlState, post: GlState, sid: u64)
    requires
        surface_release_clauses(pre, post, sid),
        has_sid(pre.surfaces@, sid) ==> !sid_entry(pre.surfaces@, sid).owned,
    ensures
        post.platform.dc_release_count == pre.platform.dc_release_count,
{
}

/// Giving back a share of an owned surface that other owners still share
/// triggers no native release.
pub proof fn law_release_shared_no_native(pre: GlState, post: GlState, sid: u64)
    requires
        surface_release_clauses(pre, post, sid),
        has_sid(pre.surfaces@, sid),
        sid_entry(pre.surfaces@, sid).refs > 1,
    ensures
        post.platform.dc_release_count == pre.platform.dc_release_count,
{
}

/// Giving back the last share of an owned, window-backed surface performs
/// exactly one native release.
pub proof fn law_release_owned_last_native(pre: GlState, post: GlState, sid: u64)
    requires
        surface_release_clauses(pre, post, sid),
        has_sid(pre.surfaces@, sid),
        sid_entry(pre.surfaces@, sid).owned,
        sid_entry(pre.surfaces@, sid).hwnd != 0,
        sid_entry(pre.surfaces@, sid).refs == 1,
        pre.platform.known_dcs@.contains(sid_entry(pre.surfaces@, sid).hdc),
    ensures
        post.platform.dc_release_count == pre.platform.dc_release_count + 1,
{
}

/// A surface wrapped from a raw handle is registered not owned, with one
/// share: by `law_release_unowned_no_native`, no sequence of releases of it
/// ever performs a native release.
pub proof fn law_from_raw_unowned(
    pre: GlState,
    post: GlState,
    hdc: isize,
    r: Result<WGLDisplay, Error>,
    d: WGLDisplay,
)
    requires
        pre.wf(),
        from_raw_post(pre, post, hdc, r),
        r == Ok::<WGLDisplay, Error>(d),
    ensures
        !d.handle.owned,
        has_sid(post.surfaces@, d.sid),
        !sid_entry(post.surfaces@, d.sid).owned,
        sid_entry(post.surfaces@, d.sid).refs == 1,
{
    let n = pre.surfaces@.len() as int;
    assert(post.surfaces@[n].sid == d.sid);
    assert(nodup_sids(post.surfaces@)) by {
        assert(forall|i: int| 0 <= i < n ==> post.surfaces@[i] == pre.surfaces@[i]);
        assert(forall|i: int|
            0 <= i < n ==> (#[trigger] post.surfaces@[i]).sid < pre.next_sid);
    }
    lemma_sid_index_unique(post.surfaces@, d.sid, n);
}

/// A surface acquired from a window is owned and window-backed, with one
/// share: by `law_release_owned_last_native`, its last release performs the
/// one native release.
pub proof fn law_from_window_owned(
    pre: GlState,
    post: GlState,
    hwnd: isize,
    r: Result<WGLDisplay, Error>,
    d: WGLDisplay,
)
    requires
        pre.wf(),
        from_window_post(pre, post, hwnd, r),
        r == Ok::<WGLDisplay, Error>(d),
    ensures
        d.handle.owned,
        d.handle.hwnd == Some(hwnd),
        has_sid(post.surfaces@, d.sid),
        sid_entry(post.surfaces@, d.sid).owned,
        sid_entry(post.surfaces@, d.sid).hwnd == hwnd,
        sid_entry(post.surfaces@, d.sid).refs == 1,
        post.platform.known_dcs@.contains(sid_entry(post.surfaces@, d.sid).hdc),
{
    let n = pre.surfaces@.len() as int;
    assert(post.surfaces@[n].sid == d.sid);
    assert(nodup_sids(post.surfaces@)) by {
        assert(forall|i: int| 0 <= i < n ==> post.surfaces@[i] == pre.surfaces@[i]);
        assert(forall|i: int|
            0 <= i < n ==> (#[trigger] post.surfaces@[i]).sid < pre.next_sid);
    }
    lemma_sid_index_unique(post.surfaces@, d.sid, n);
    let dc = pre.platform.next_dc;
    assert(post.platform.known_dcs@[post.platform.known_dcs@.len() - 1] == dc);
}

/// Resolving a name that neither lookup path knows yields null.
pub proof fn lemma_lookup_absent(t: Seq<Symbol>, name: Seq<char>)
    requires
        forall|i: int| 0 <= i < t.len() ==> (#[trigger] t[i]).name@ != name,
    ensures
        sym_lookup(t, name) == 0,
    decreases t.len(),
{
    if t.len() > 0 {
        assert(forall|i: int|
            0 <= i < t.drop_first().len() ==> (#[trigger] t.drop_first()[i]).name@ != name);
        lemma_lookup_absent(t.drop_first(), name);
    }
}

/// `get_proc_address` of a name absent from both the extension table and the
/// export table returns null.
pub proof fn law_unknown_name_null(p: Platform, name: Seq<char>)
    requires
        match p.runtime {
            Some(rt) => (forall|i: int|
                0 <= i < rt.extension_symbols@.len()
                    ==> (#[trigger] rt.extension_symbols@[i]).name@ != name) && (forall|i: int|
                0 <= i < rt.core_symbols@.len() ==> (#[trigger] rt.core_symbols@[i]).name@
                    != name),
            None => true,
        },
    ensures
        spec_gpa(p, name) == 0,
{
    match p.runtime {
        Some(rt) => {
            lemma_lookup_absent(rt.extension_symbols@, name);
            lemma_lookup_absent(rt.core_symbols@, name);
        },
        None => {},
    }
}

/// Resolution is stable: two `get_proc_address` calls with one name on one
/// state return the same address, and the second call changes nothing.
pub proof fn law_proc_address_stable(
    s0: GlState,
    s1: GlState,
    s2: GlState,
    name: Seq<char>,
    a1: usize,
    a2: usize,
)
    requires
        gpa_post(s0, s1, name, a1),
        gpa_post(s1, s2, name, a2),
    ensures
        a1 == a2,
        s2 == s1,
{
}

/// Initialization happens at most once and every caller observes the same
/// outcome: a second call returns the first call's result and changes
/// nothing, and the library open count grows only on the first attempt.
pub proof fn law_init_once(
    s0: GlState,
    s1: GlState,
    s2: GlState,
    r1: Result<(), Error>,
    r2: Result<(), Error>,
)
    requires
        init_post(s0, s1, r1),
        init_post(s1, s2, r2),
    ensures
        r1 == r2,
        s2 == s1,
        s1.platform.open_count == s0.platform.open_count + (if s0.library.outcome is Some {
            0int
        } else {
            1int
        }),
        s2.platform.open_count == s1.platform.open_count,
{
}

/// A pixel-format request the runtime cannot satisfy is rejected with the
/// selection failure — never answered with a silently downgraded format.
pub proof fn law_unsatisfiable_format_rejected(
    pre: GlState,
    post: GlState,
    hwnd: isize,
    r: Result<WGLDisplay, Error>,
)
    requires
        from_window_post(pre, post, hwnd, r),
        spec_init_result(pre) is Ok,
        hwnd != 0,
        !spec_window_format_ok(pre.platform),
    ensures
        r == Err::<WGLDisplay, Error>(Error::ChoosePixelFormatFailed),
        post.surfaces == pre.surfaces,
{
}

/// Surface acquisition fails only as stated: once a pixel format is chosen,
/// applying it cannot fail (the device context is fresh), and none of the
/// context-level errors can come out of `from_window`.
pub proof fn law_from_window_error_taxonomy(
    pre: GlState,
    post: GlState,
    hwnd: isize,
    r: Result<WGLDisplay, Error>,
)
    requires
        from_window_post(pre, post, hwnd, r),
    ensures
        r != Err::<WGLDisplay, Error>(Error::SetPixelFormatFailed),
        r != Err::<WGLDisplay, Error>(Error::ContextCreationFailed),
        r != Err::<WGLDisplay, Error>(Error::MakeCurrentFailed),
        r != Err::<WGLDisplay, Error>(Error::ExtensionNotSupported),
{
}

} // verus!
