use glctx::compat::{clock_gettime, ClockId, MmapError, MmapRegion, Timespec};

#[test]
fn timespec_new_keeps_fields() {
    let t = Timespec::new(12, 34);
    assert_eq!(t.tv_sec, 12);
    assert_eq!(t.tv_nsec, 34);
}

#[test]
fn monotonic_clock_nanoseconds_in_range() {
    let t = clock_gettime(ClockId::Monotonic);
    assert!(t.tv_nsec >= 0);
    assert!(t.tv_nsec < 1_000_000_000);
}

#[test]
fn realtime_clock_nanoseconds_in_range() {
    let t = clock_gettime(ClockId::Realtime);
    assert!(t.tv_nsec >= 0);
    assert!(t.tv_nsec < 1_000_000_000);
}

#[test]
fn memory_mapping_is_unsupported() {
    assert_eq!(MmapRegion::new(3, 4096, 1, 1), Err(MmapError));
}

#[test]
fn mmap_region_len_reads_back() {
    let r = MmapRegion { len: 4096 };
    assert_eq!(r.len(), 4096);
}
