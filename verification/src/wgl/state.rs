//! Subsystem state: the lazily-initialized library resolver and the
//! reference-counted surface registry.
//!
//! [`init_gl_library`] opens the runtime library at most once per state and
//! caches the outcome, success or failure, so every later caller observes the
//! same fully-populated entry-point table or the same error.
//! [`get_proc_address`] resolves a name through the extension-query path with
//! a fallback to direct export lookup.

use vstd::prelude::*;

use crate::wgl::errors::{Error, LoadFailure};
use crate::wgl::platform::{spec_core_symbol, spec_query_extension, Platform};

verus! {

/// The table of resolved core entry points.  Populated only as a whole: a
/// caller never sees a partially-resolved table.
#[derive(Debug, Clone, Copy, PartialEq, Eq, Structural)]
pub struct CoreFns {
    pub query_proc: usize,
    pub create_context: usize,
    pub delete_context: usize,
    pub make_current: usize,
    pub get_current_context: usize,
    pub get_current_dc: usize,
}

impl CoreFns {
    /// A populated table holds no null entry.
    pub open spec fn wf(&self) -> bool {
        &&& self.query_proc != 0
        &&& self.create_context != 0
        &&& self.delete_context != 0
        &&& self.make_current != 0
        &&& self.get_current_context != 0
        &&& self.get_current_dc != 0
    }
}

/// The resolver's own state: `None` until the first initialization attempt,
/// then the cached outcome for the rest of the process.
pub struct LibraryState {
    pub outcome: Option<Result<CoreFns, LoadFailure>>,
}

/// One registered drawable surface: its native handles, whether the
/// subsystem owns (and must release) it, and how many owners share it.
#[derive(Debug, Clone, Copy, PartialEq, Eq, Structural)]
pub struct SurfaceEntry {
    /// Registry identity of the surface.
    pub sid: u64,
    /// The native device context the surface draws to.
    pub hdc: isize,
    /// The window behind the surface; zero for none.
    pub hwnd: isize,
    /// Whether the subsystem acquired the device context and must release it.
    pub owned: bool,
    /// How many owners (surface values and contexts) share the surface.
    pub refs: u64,
}

/// The whole subsystem state: the native platform, the resolver cache and
/// the surface registry.
pub struct GlState {
    pub platform: Platform,
    pub library: LibraryState,
    pub surfaces: Vec<SurfaceEntry>,
    pub next_sid: u64,
}

/// What resolving the six core entry points yields on a given platform.
pub open spec fn spec_resolve(p: Platform) -> Result<CoreFns, LoadFailure> {
    match p.runtime {
        None => Err(LoadFailure::LibraryNotFound),
        Some(rt) => {
            if rt.query_proc_addr == 0 || rt.create_context_addr == 0 || rt.delete_context_addr
                == 0 || rt.make_current_addr == 0 || rt.get_current_context_addr == 0
                || rt.get_current_dc_addr == 0 {
                Err(LoadFailure::SymbolMissing)
            } else {
                Ok(
                    CoreFns {
                        query_proc: rt.query_proc_addr,
                        create_context: rt.create_context_addr,
                        delete_context: rt.delete_context_addr,
                        make_current: rt.make_current_addr,
                        get_current_context: rt.get_current_context_addr,
                        get_current_dc: rt.get_current_dc_addr,
                    },
                )
            }
        },
    }
}

/// The `Result` an initialization outcome is reported as.
pub open spec fn outcome_result(o: Result<CoreFns, LoadFailure>) -> Result<(), Error> {
    match o {
        Ok(_) => Ok(()),
        Err(k) => Err(Error::LibraryLoadFailed(k)),
    }
}

/// What `init_gl_library` returns on a given state, first call or not.
pub open spec fn spec_init_result(pre: GlState) -> Result<(), Error> {
    match pre.library.outcome {
        Some(out) => outcome_result(out),
        None => outcome_result(spec_resolve(pre.platform)),
    }
}

/// There is an entry with this registry identity.
pub open spec fn has_sid(s: Seq<SurfaceEntry>, sid: u64) -> bool {
    exists|i: int| 0 <= i < s.len() && s[i].sid == sid
}

/// The position of the entry with this registry identity (meaningful when
/// identities are unique and the entry exists).
pub open spec fn sid_index(s: Seq<SurfaceEntry>, sid: u64) -> int {
    choose|i: int| 0 <= i < s.len() && s[i].sid == sid
}

/// The entry with this registry identity.
pub open spec fn sid_entry(s: Seq<SurfaceEntry>, sid: u64) -> SurfaceEntry {
    s[sid_index(s, sid)]
}

/// Registry identities occur at most once.
pub open spec fn nodup_sids(s: Seq<SurfaceEntry>) -> bool {
    forall|i: int, j: int| 0 <= i < j < s.len() ==> s[i].sid != s[j].sid
}

/// The same entry with a different share count.
pub open spec fn entry_with_refs(e: SurfaceEntry, refs: u64) -> SurfaceEntry {
    SurfaceEntry { sid: e.sid, hdc: e.hdc, hwnd: e.hwnd, owned: e.owned, refs }
}

/// With unique identities, any position holding `sid` is the position
/// `sid_index` denotes.
pub proof fn lemma_sid_index_unique(s: Seq<SurfaceEntry>, sid: u64, i: int)
    requires
        nodup_sids(s),
        0 <= i < s.len(),
        s[i].sid == sid,
    ensures
        has_sid(s, sid),
        sid_index(s, sid) == i,
{
    assert(has_sid(s, sid));
    let k = sid_index(s, sid);
    assert(0 <= k < s.len() && s[k].sid == sid);
    if k != i {
        if k < i {
            assert(s[k].sid != s[i].sid);
        } else {
            assert(s[i].sid != s[k].sid);
        }
        assert(false);
    }
}

impl GlState {
    /// The resolver has run and succeeded: the entry-point table is fully
    /// populated.
    pub open spec fn initialized(&self) -> bool {
        self.library.outcome matches Some(Ok(_))
    }

    /// Well-formedness: the platform is well-formed, registry identities are
    /// unique and below the allocation cursor, every registered surface is
    /// shared at least once and has a non-null device context, and a cached
    /// success is exactly what resolving against the platform yields.
    pub open spec fn wf(&self) -> bool {
        &&& self.platform.wf()
        &&& nodup_sids(self.surfaces@)
        &&& forall|i: int|
            0 <= i < self.surfaces@.len() ==> (#[trigger] self.surfaces@[i]).sid < self.next_sid
                && self.surfaces@[i].refs >= 1 && self.surfaces@[i].hdc != 0
        &&& match self.library.outcome {
            Some(Ok(t)) => spec_resolve(self.platform) == Ok::<CoreFns, LoadFailure>(t),
            _ => true,
        }
    }

    /// A fresh subsystem state over a platform: nothing resolved yet, no
    /// surface registered.
    pub fn new(platform: Platform) -> (st: GlState)
        requires
            platform.wf(),
        ensures
            st.platform == platform,
            st.library.outcome is None,
            st.surfaces@ =~= Seq::<SurfaceEntry>::empty(),
            st.next_sid == 1,
            st.wf(),
    {
        GlState {
            platform,
            library: LibraryState { outcome: None },
            surfaces: Vec::new(),
            next_sid: 1,
        }
    }

    /// Whether the resolver has run and succeeded.
    pub fn is_initialized(&self) -> (b: bool)
        ensures
            b == self.initialized(),
    {
        match &self.library.outcome {
            Some(Ok(_)) => true,
            _ => false,
        }
    }
}

/// What one `init_gl_library` call does: a cached outcome is returned as is
/// with nothing touched; a first call opens the library exactly once,
/// resolves the whole table and caches the outcome, success or failure.
pub open spec fn init_post(pre: GlState, post: GlState, r: Result<(), Error>) -> bool {
    match pre.library.outcome {
        Some(out) => {
            &&& post == pre
            &&& r == outcome_result(out)
        },
        None => {
            &&& post.library.outcome == Some(spec_resolve(pre.platform))
            &&& r == outcome_result(spec_resolve(pre.platform))
            &&& post.platform.open_count == pre.platform.open_count + 1
            &&& Platform::eq_except_open(pre.platform, post.platform)
            &&& post.surfaces == pre.surfaces
            &&& post.next_sid == pre.next_sid
        },
    }
}

/// Initialize the library resolver.  Idempotent: the library is opened at
/// most once per state, and every caller receives the same outcome.  Failure
/// is fatal for graphics and will not change within the life of the state,
/// so callers propagate it instead of retrying.
pub fn init_gl_library(st: &mut GlState) -> (r: Result<(), Error>)
    requires
        old(st).wf(),
        old(st).platform.open_count < u64::MAX,
    ensures
        final(st).wf(),
        init_post(*old(st), *final(st), r),
{
    match &st.library.outcome {
        Some(Ok(_)) => {
            return Ok(());
        },
        Some(Err(k)) => {
            return Err(Error::LibraryLoadFailed(*k));
        },
        None => {},
    }
    let _ = st.platform.open_library();
    let out: Result<CoreFns, LoadFailure> = match &st.platform.runtime {
        None => Err(LoadFailure::LibraryNotFound),
        Some(rt) => {
            if rt.query_proc_addr == 0 || rt.create_context_addr == 0 || rt.delete_context_addr
                == 0 || rt.make_current_addr == 0 || rt.get_current_context_addr == 0
                || rt.get_current_dc_addr == 0 {
                Err(LoadFailure::SymbolMissing)
            } else {
                Ok(
                    CoreFns {
                        query_proc: rt.query_proc_addr,
                        create_context: rt.create_context_addr,
                        delete_context: rt.delete_context_addr,
                        make_current: rt.make_current_addr,
                        get_current_context: rt.get_current_context_addr,
                        get_current_dc: rt.get_current_dc_addr,
                    },
                )
            }
        },
    };
    st.library.outcome = Some(out);
    match out {
        Ok(_) => Ok(()),
        Err(k) => Err(Error::LibraryLoadFailed(k)),
    }
}

/// Sentinel return values of the extension-query path: null, and the small
/// platform-defined values some drivers use for "found but not loadable
/// through this path".
pub open spec fn spec_proc_sentinel(addr: usize) -> bool {
    addr == 0 || addr == 1 || addr == 2 || addr == 3 || addr == usize::MAX
}

/// The address `get_proc_address` resolves once the library is initialized:
/// the extension-query result unless it is null or a sentinel, else the
/// direct export lookup, else null.
pub open spec fn spec_gpa(p: Platform, name: Seq<char>) -> usize {
    let e = spec_query_extension(p, name);
    if !spec_proc_sentinel(e) {
        e
    } else {
        spec_core_symbol(p, name)
    }
}

/// What one `get_proc_address` call does: it initializes the resolver as
/// `init_gl_library` would, returns null when that fails, and otherwise
/// resolves the name as a pure function of the platform.
pub open spec fn gpa_post(pre: GlState, post: GlState, name: Seq<char>, addr: usize) -> bool {
    &&& init_post(pre, post, spec_init_result(pre))
    &&& addr == (if spec_init_result(pre) is Ok {
        spec_gpa(pre.platform, name)
    } else {
        0
    })
}

/// Resolve an entry point by name.  Never errors: a null result means the
/// capability is absent.  Tries the extension-query path first; a null or
/// sentinel result falls back to direct export lookup.
pub fn get_proc_address(st: &mut GlState, name: &str) -> (addr: usize)
    requires
        old(st).wf(),
        old(st).platform.open_count < u64::MAX,
    ensures
        final(st).wf(),
        gpa_post(*old(st), *final(st), name@, addr),
{
    if init_gl_library(st).is_err() {
        return 0;
    }
    let e = st.platform.query_extension(name);
    if e != 0 && e != 1 && e != 2 && e != 3 && e != usize::MAX {
        return e;
    }
    st.platform.core_symbol(name)
}

/// Find a surface by registry identity: whether it is there, and where.
pub fn find_surface(v: &Vec<SurfaceEntry>, sid: u64) -> (r: (bool, usize))
    ensures
        r.0 ==> r.1 < v@.len() && v@[r.1 as int].sid == sid && (forall|j: int|
            0 <= j < r.1 ==> v@[j].sid != sid),
        !r.0 ==> forall|j: int| 0 <= j < v@.len() ==> v@[j].sid != sid,
{
    let mut k: usize = 0;
    while k < v.len()
        invariant
            k <= v@.len(),
            forall|j: int| 0 <= j < k ==> v@[j].sid != sid,
        decreases v@.len() - k,
    {
        if v[k].sid == sid {
            return (true, k);
        }
        k = k + 1;
    }
    (false, 0)
}

/// What granting one more share does to the registry.
pub open spec fn bump_post(pre: Seq<SurfaceEntry>, post: Seq<SurfaceEntry>, sid: u64) -> bool {
    if has_sid(pre, sid) {
        post == pre.update(
            sid_index(pre, sid),
            entry_with_refs(sid_entry(pre, sid), (sid_entry(pre, sid).refs + 1) as u64),
        )
    } else {
        post == pre
    }
}

/// Grant one more share of a surface.
pub fn bump_surface_ref(v: &mut Vec<SurfaceEntry>, sid: u64) -> (found: bool)
    requires
        nodup_sids(old(v)@),
        forall|i: int|
            0 <= i < old(v)@.len() && (#[trigger] old(v)@[i]).sid == sid ==> old(v)@[i].refs
                < u64::MAX,
    ensures
        found == has_sid(old(v)@, sid),
        bump_post(old(v)@, final(v)@, sid),
{
    let (found, i) = find_surface(v, sid);
    if !found {
        proof {
            assert(!has_sid(v@, sid));
        }
        return false;
    }
    let e = v[i];
    proof {
        lemma_sid_index_unique(v@, sid, i as int);
    }
    v.set(
        i,
        SurfaceEntry { sid: e.sid, hdc: e.hdc, hwnd: e.hwnd, owned: e.owned, refs: e.refs + 1 },
    );
    true
}

/// The device-context bookkeeping of the platform is untouched.
pub open spec fn dc_fields_eq(ppre: Platform, ppost: Platform) -> bool {
    &&& ppost.known_dcs@ == ppre.known_dcs@
    &&& ppost.formatted_dcs@ == ppre.formatted_dcs@
    &&& ppost.dc_release_count == ppre.dc_release_count
}

/// One native device-context release happened (when the device context
/// existed): it is forgotten and the release count grows by one.
pub open spec fn dc_release_effects(ppre: Platform, ppost: Platform, dc: isize) -> bool {
    if ppre.known_dcs@.contains(dc) {
        &&& crate::wgl::platform::removed_first(ppre.known_dcs@, ppost.known_dcs@, dc)
        &&& crate::wgl::platform::removed_first(ppre.formatted_dcs@, ppost.formatted_dcs@, dc)
        &&& ppost.dc_release_count == ppre.dc_release_count + 1
    } else {
        dc_fields_eq(ppre, ppost)
    }
}

/// What giving one share of a surface back does: an unknown identity changes
/// nothing; a shared surface loses one share; the last share removes the
/// entry and, exactly when the surface is owned and window-backed, performs
/// the one native release.
pub open spec fn surface_release_clauses(pre: GlState, post: GlState, sid: u64) -> bool {
    if !has_sid(pre.surfaces@, sid) {
        &&& post.surfaces@ == pre.surfaces@
        &&& dc_fields_eq(pre.platform, post.platform)
    } else {
        let i = sid_index(pre.surfaces@, sid);
        let e = pre.surfaces@[i];
        if e.refs > 1 {
            &&& post.surfaces@ == pre.surfaces@.update(
                i,
                entry_with_refs(e, (e.refs - 1) as u64),
            )
            &&& dc_fields_eq(pre.platform, post.platform)
        } else {
            &&& post.surfaces@ == pre.surfaces@.remove(i)
            &&& if e.owned && e.hwnd != 0 {
                dc_release_effects(pre.platform, post.platform, e.hdc)
            } else {
                dc_fields_eq(pre.platform, post.platform)
            }
        }
    }
}

/// `surface_release_clauses`, plus: nothing else of the state changes.
pub open spec fn release_ref_post(pre: GlState, post: GlState, sid: u64) -> bool {
    &&& surface_release_clauses(pre, post, sid)
    &&& post.platform.runtime == pre.platform.runtime
    &&& post.platform.open_count == pre.platform.open_count
    &&& post.platform.current_context == pre.platform.current_context
    &&& post.platform.current_dc == pre.platform.current_dc
    &&& post.platform.live_contexts == pre.platform.live_contexts
    &&& post.platform.next_context == pre.platform.next_context
    &&& post.platform.next_dc == pre.platform.next_dc
    &&& post.platform.context_delete_count == pre.platform.context_delete_count
    &&& post.library == pre.library
    &&& post.next_sid == pre.next_sid
}

/// Give one share of a surface back, releasing the native device context
/// exactly when the last share of an owned, window-backed surface goes.
pub fn release_surface_ref(st: &mut GlState, sid: u64)
    requires
        old(st).wf(),
        old(st).platform.dc_release_count < u64::MAX,
    ensures
        final(st).wf(),
        release_ref_post(*old(st), *final(st), sid),
{
    let (found, i) = find_surface(&st.surfaces, sid);
    if !found {
        proof {
            assert(!has_sid(st.surfaces@, sid));
        }
        return ;
    }
    let e = st.surfaces[i];
    proof {
        lemma_sid_index_unique(st.surfaces@, sid, i as int);
    }
    if e.refs > 1 {
        st.surfaces.set(
            i,
            SurfaceEntry {
                sid: e.sid,
                hdc: e.hdc,
                hwnd: e.hwnd,
                owned: e.owned,
                refs: e.refs - 1,
            },
        );
    } else {
        let _ = st.surfaces.remove(i);
        proof {
            let s = old(st).surfaces@;
            let t = st.surfaces@;
            assert(forall|a: int|
                0 <= a < t.len() ==> t[a] == (if a < i {
                    s[a]
                } else {
                    s[a + 1]
                }));
            assert(nodup_sids(t));
        }
        if e.owned && e.hwnd != 0 {
            let _ = st.platform.release_dc(e.hwnd, e.hdc);
        }
    }
}

} // verus!
