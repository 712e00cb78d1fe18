//! What a filesystem implements, and the records its operations return.

use crate::flags::OpenFlags;
use crate::stat::Stat;
use nix::errno::Errno;
use vstd::prelude::*;

verus! {

/// The result of an attribute query.
#[derive(Debug)]
pub struct GetfattrRetVal {
    pub stat: Stat,
}

/// The result of a directory listing: the names of the entries.
#[derive(Debug)]
pub struct ReaddirRetVal {
    pub entries: Vec<String>,
}

/// The result of an open.
#[derive(Debug)]
pub struct OpenRetVal {}

/// The result of a read: the bytes that were read.
#[derive(Debug)]
pub struct ReadRetVal {
    pub content: Vec<u8>,
}

/// A filesystem. One instance serves every request of a mount, so an
/// implementation is shared and lives as long as the process.
///
/// Each operation either returns its record or fails with an error number,
/// which reaches native code negated.
pub trait Filesystem: Send + Sync + 'static {
    /// The status of the object at `path`.
    fn getattr(&self, path: &str) -> Result<GetfattrRetVal, Errno>;

    /// The entries of the directory at `path`.
    fn readdir(&self, path: &str) -> Result<ReaddirRetVal, Errno>;

    /// Opens the file at `path`.
    fn open(&self, path: &str, flags: OpenFlags) -> Result<OpenRetVal, Errno>;

    /// At most `max_bytes` bytes of the file at `path`, from `offset` on.
    fn read(&self, path: &str, max_bytes: usize, offset: u64) -> Result<ReadRetVal, Errno>;
}

} // verus!
