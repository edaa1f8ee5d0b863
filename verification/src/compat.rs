//! Platform compatibility layer: a monotonic/realtime clock and a
//! memory-mapping stub, consumed through narrow plain-value interfaces.

use vstd::prelude::*;

verus! {

/// Which clock to read.
#[derive(Debug, Clone, Copy, PartialEq, Eq, Structural)]
pub enum ClockId {
    Monotonic,
    Realtime,
}

/// A point in time: whole seconds and the nanoseconds within the second.
#[derive(Debug, Clone, Copy, PartialEq, Eq, Structural)]
pub struct Timespec {
    pub tv_sec: i64,
    pub tv_nsec: i64,
}

impl Timespec {
    /// A timespec with the given fields.
    pub fn new(sec: i64, nsec: i64) -> (t: Timespec)
        ensures
            t.tv_sec == sec,
            t.tv_nsec == nsec,
    {
        Timespec { tv_sec: sec, tv_nsec: nsec }
    }
}

/// Relies on rustix::time::clock_gettime: reads the given clock of the host.
/// The result depends on the moment of the call; what holds of every outcome
/// is that the nanosecond field is a position within one second.
#[verifier::external_body]
pub fn clock_gettime(clock: ClockId) -> (t: Timespec)
    ensures
        0 <= t.tv_nsec < 1_000_000_000,
{
    let id = match clock {
        ClockId::Monotonic => rustix::time::ClockId::Monotonic,
        ClockId::Realtime => rustix::time::ClockId::Realtime,
    };
    let ts = rustix::time::clock_gettime(id);
    Timespec { tv_sec: ts.tv_sec as i64, tv_nsec: ts.tv_nsec as i64 }
}

/// Protection bit: pages may be read.
pub const PROT_READ: i32 = 1;

/// Protection bit: pages may be written.
pub const PROT_WRITE: i32 = 2;

/// Mapping flag: updates are shared.
pub const MAP_SHARED: i32 = 1;

/// Error of the memory-mapping stub.
#[derive(Debug, Clone, Copy, PartialEq, Eq, Structural)]
pub struct MmapError;

/// A memory-mapped region.  Mapping is not implemented in this
/// configuration, so no value of this type can be produced by [`MmapRegion::new`].
#[derive(Debug, PartialEq, Eq, Structural)]
pub struct MmapRegion {
    pub len: usize,
}

impl MmapRegion {
    /// Map a file descriptor: not supported in this configuration, so every
    /// request is rejected.
    pub fn new(_fd: i32, _len: usize, _prot: i32, _flags: i32) -> (r: Result<
        MmapRegion,
        MmapError,
    >)
        ensures
            r == Err::<MmapRegion, MmapError>(MmapError),
    {
        Err(MmapError)
    }

    /// Length of the mapped region in bytes.
    pub fn len(&self) -> (n: usize)
        ensures
            n == self.len,
    {
        self.len
    }
}

} // verus!
