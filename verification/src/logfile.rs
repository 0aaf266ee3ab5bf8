//! Where Bardic Chord keeps its files, and how large its log may grow.
use vstd::prelude::*;

verus! {

/// The directory for settings and logs, in the directory where Bardic Chord runs.
pub const LOCAL_STATE_DIR: &'static str = ".bardic-chord";

pub const SETTINGS_FILE: &'static str = "settings.json";

pub const LOG_FILE: &'static str = "bardic-chord.log";

/// The size that the log does not exceed.
pub const LOG_MAX_BYTES: u64 = 1_048_576;

/// Whether the log is emptied when it is opened.
pub fn truncates_on_open(size: u64) -> (r: bool)
    ensures
        r == (size > LOG_MAX_BYTES),
{
    size > LOG_MAX_BYTES
}

/// Whether the log is emptied before `added` bytes are written to it.
pub open spec fn overflows(size: u64, added: u64) -> bool {
    size + added > LOG_MAX_BYTES
}

/// Whether the log is emptied before `added` bytes are written to it.
pub fn truncates_before_write(size: u64, added: u64) -> (r: bool)
    ensures
        r == overflows(size, added),
{
    added > LOG_MAX_BYTES || size > LOG_MAX_BYTES - added
}

/// The size of the log once `added` bytes were written to it.
pub open spec fn size_after_write(size: u64, added: u64) -> int {
    if overflows(size, added) {
        added as int
    } else {
        size + added
    }
}

/// A log never grows beyond its limit, unless a single entry does.
pub proof fn log_stays_within_limit(size: u64, added: u64)
    ensures
        added <= LOG_MAX_BYTES ==> size_after_write(size, added) <= LOG_MAX_BYTES,
        size_after_write(size, added) >= added,
{
}

/// An entry that fits is added to what the log holds; only one that does not fit
/// empties it.
pub proof fn fitting_entries_are_added(size: u64, added: u64)
    ensures
        size + added <= 1_048_576 ==> size_after_write(size, added) == size + added,
        size + added > 1_048_576 ==> size_after_write(size, added) == added,
{
}

} // verus!
