//! Per-open-file handles.

use vstd::prelude::*;

verus! {

/// Whether a file handle is still usable.  A handle moves from `Open` to
/// `Closed` exactly once; closing a closed handle is an error, signalling
/// a bookkeeping mistake upstream, and is not silently ignored.
#[derive(Copy, Clone, Eq, PartialEq, PartialOrd, Ord, Hash, Debug, Structural)]
pub enum ExtFileState {
    /// The handle may still be read or written through its session.
    Open,
    /// The handle was closed; further use is an error.
    Closed,
}

/// A file handle bound to one inode of one session.  Files must be closed
/// through their owning session before the session is torn down for
/// pending writes to reach the image.
#[derive(Clone, Debug)]
pub struct ExtFile {
    /// Number of the inode the handle is bound to.
    pub ino: u32,
    /// Current read/write position, in bytes from the start of the file.
    pub pos: u64,
    /// The open flags the handle was created with.
    pub flags: i32,
    /// Open/closed tag.
    pub state: ExtFileState,
}

} // verus!
