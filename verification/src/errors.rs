//! The failure taxonomy of a blocking session: bad caller input, a host
//! file that could not be read, a write that failed after the snapshot
//! was taken, and a cache flush that failed (the only non-fatal kind).

use vstd::prelude::*;

verus! {

/// What went wrong during a session.
#[derive(Clone, Copy, Debug, PartialEq, Eq, Structural)]
pub enum BlockError {
    /// The timer token was missing or unparsable; caught before any file
    /// is touched, so aborting is always safe.
    InputError,
    /// The host file could not be read for the snapshot; fatal, since no
    /// safe default content exists, but nothing was mutated yet.
    FileUnavailable,
    /// A write failed after the snapshot was taken; the file may be left
    /// modified.
    WriteFailure,
    /// The resolver-cache flush command failed; reported but the session
    /// continues, since the host-file edits still took effect.
    CacheFlushFailure,
}

} // verus!
