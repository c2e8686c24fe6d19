//! The retention policy of the archive directory: files whose last change
//! lies more than fourteen days back are removed, once a day.
use vstd::prelude::*;

verus! {

/// How long archived originals are kept, in seconds (fourteen days).
pub const RETENTION_WINDOW_SECS: u64 = 1_209_600;

/// The time between two sweeps of the archive directory, in seconds.
pub const SWEEP_INTERVAL_SECS: u64 = 86_400;

/// Nanoseconds in a second.
pub const NANOS_PER_SEC: i128 = 1_000_000_000;

/// What a sweep reads of one directory entry: its path, whether its
/// metadata says it is a regular file (`false` when the metadata cannot be
/// read), and its modification time in nanoseconds relative to the Unix
/// epoch (`None` when the platform does not report one).
pub struct ArchiveEntry {
    pub path: String,
    pub is_file: bool,
    pub modified: Option<i128>,
}

/// The earliest modification time a kept file may have, `now` minus the
/// retention window, all in nanoseconds relative to the Unix epoch.
pub open spec fn cutoff_of(now: int) -> int {
    now - RETENTION_WINDOW_SECS * NANOS_PER_SEC
}

/// A regular file last changed before the cutoff.
pub open spec fn is_expired(e: ArchiveEntry, cutoff: int) -> bool {
    &&& e.is_file
    &&& e.modified matches Some(m) && m < cutoff
}

/// The paths of the expired entries, in listing order.
pub open spec fn expired_paths(entries: Seq<ArchiveEntry>, cutoff: int) -> Seq<Seq<char>>
    decreases entries.len(),
{
    if entries.len() == 0 {
        Seq::<Seq<char>>::empty()
    } else {
        let rest = expired_paths(entries.drop_last(), cutoff);
        if is_expired(entries.last(), cutoff) {
            rest.push(entries.last().path@)
        } else {
            rest
        }
    }
}

/// The cutoff of a sweep that starts at `now`.
pub fn retention_cutoff(now: i128) -> (r: i128)
    requires
        now >= i128::MIN + RETENTION_WINDOW_SECS * NANOS_PER_SEC,
    ensures
        r == cutoff_of(now as int),
{
    now - (RETENTION_WINDOW_SECS as i128) * NANOS_PER_SEC
}

/// Whether a sweep removes the entry.
pub fn should_remove(entry: &ArchiveEntry, cutoff: i128) -> (r: bool)
    ensures
        r == is_expired(*entry, cutoff as int),
{
    match entry.modified {
        Some(m) => entry.is_file && m < cutoff,
        None => false,
    }
}

/// The files a sweep started at `now` removes, in listing order.
pub fn expired_files(entries: &Vec<ArchiveEntry>, now: i128) -> (r: Vec<String>)
    requires
        now >= i128::MIN + RETENTION_WINDOW_SECS * NANOS_PER_SEC,
    ensures
        r@.map_values(|s: String| s@) == expired_paths(entries@, cutoff_of(now as int)),
{
    let cutoff = retention_cutoff(now);
    let mut out: Vec<String> = Vec::new();
    let mut i: usize = 0;
    while i < entries.len()
        invariant
            i <= entries.len(),
            cutoff == cutoff_of(now as int),
            out@.map_values(|s: String| s@) == expired_paths(entries@.take(i as int), cutoff as int),
        decreases entries.len() - i,
    {
        proof {
            assert(entries@.take(i + 1).drop_last() =~= entries@.take(i as int));
            assert(entries@.take(i + 1).last() == entries@[i as int]);
        }
        if should_remove(&entries[i], cutoff) {
            let ghost before = out@;
            let p = entries[i].path.clone();
            out.push(p);
            proof {
                assert(out@ == before.push(p));
                assert(out@.map_values(|s: String| s@) =~= before.map_values(|s: String| s@).push(
                    p@,
                ));
            }
        }
        i = i + 1;
    }
    assert(entries@.take(entries.len() as int) =~= entries@);
    out
}

/// A file that one sweep removes would be removed by every later sweep,
/// and a file changed within the retention window of a sweep is kept by it.
pub proof fn law_expiry_is_monotone(e: ArchiveEntry, now: int, later: int)
    requires
        now <= later,
    ensures
        is_expired(e, cutoff_of(now)) ==> is_expired(e, cutoff_of(later)),
        (e.modified matches Some(m) && m >= cutoff_of(now)) ==> !is_expired(e, cutoff_of(now)),
{
}

} // verus!
