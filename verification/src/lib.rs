//! Verified core of a FUSE callback layer: the typed file status model, path
//! decoding, the filesystem registry, the panic boundary's bookkeeping and the
//! errno protocol that every native callback follows.

pub mod errno;
pub mod filesystem;
pub mod flags;
pub mod guard;
pub mod mode;
pub mod mount;
pub mod path;
pub mod registry;
pub mod stat;
pub mod trampoline;
