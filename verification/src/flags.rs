//! Open flags and the file information that native code hands to a callback.

use vstd::prelude::*;

verus! {

/// Mask of the access mode inside open flags.
pub const O_ACCMODE: i32 = 0o3;

pub const O_RDONLY: i32 = 0o0;

pub const O_WRONLY: i32 = 0o1;

pub const O_RDWR: i32 = 0o2;

pub const O_TRUNC: i32 = 0o1000;

pub const O_APPEND: i32 = 0o2000;

/// Whether the flags ask for appending.
pub open spec fn flags_append(bits: i32) -> bool {
    bits & O_APPEND != 0
}

/// Whether the flags ask for truncation.
pub open spec fn flags_truncate(bits: i32) -> bool {
    bits & O_TRUNC != 0
}

/// Whether the access mode is reading only.
pub open spec fn flags_read_only(bits: i32) -> bool {
    bits & O_ACCMODE == O_RDONLY
}

/// Whether the access mode is writing only.
pub open spec fn flags_write_only(bits: i32) -> bool {
    bits & O_ACCMODE == O_WRONLY
}

/// Whether the access mode is reading and writing.
pub open spec fn flags_read_write(bits: i32) -> bool {
    bits & O_ACCMODE == O_RDWR
}

/// No two access modes hold of the same flags.
pub proof fn lemma_access_modes_exclusive(bits: i32)
    ensures
        !(flags_read_only(bits) && flags_write_only(bits)),
        !(flags_read_only(bits) && flags_read_write(bits)),
        !(flags_write_only(bits) && flags_read_write(bits)),
{
}

/// The flags of an open request. They are fixed once made and can only be
/// asked questions.
#[derive(Clone, Copy, Debug)]
pub struct OpenFlags {
    bits: i32,
}

impl View for OpenFlags {
    type V = i32;

    closed spec fn view(&self) -> i32 {
        self.bits
    }
}

impl OpenFlags {
    pub fn from_bits(bits: i32) -> (flags: OpenFlags)
        ensures
            flags@ == bits,
    {
        OpenFlags { bits }
    }

    pub fn bits(&self) -> (bits: i32)
        ensures
            bits == self@,
    {
        self.bits
    }

    pub fn is_append(&self) -> (yes: bool)
        ensures
            yes == flags_append(self@),
    {
        self.bits & O_APPEND != 0
    }

    pub fn is_truncate(&self) -> (yes: bool)
        ensures
            yes == flags_truncate(self@),
    {
        self.bits & O_TRUNC != 0
    }

    pub fn is_read_only(&self) -> (yes: bool)
        ensures
            yes == flags_read_only(self@),
    {
        self.bits & O_ACCMODE == O_RDONLY
    }

    pub fn is_write_only(&self) -> (yes: bool)
        ensures
            yes == flags_write_only(self@),
    {
        self.bits & O_ACCMODE == O_WRONLY
    }

    pub fn is_read_write(&self) -> (yes: bool)
        ensures
            yes == flags_read_write(self@),
    {
        self.bits & O_ACCMODE == O_RDWR
    }
}

/// The fields of the native file information record.
#[derive(Clone, Copy, Debug, PartialEq, Eq, Structural)]
pub struct NativeFileInfo {
    pub flags: i32,
    pub fh: u64,
    pub lock_owner: u64,
    pub poll_events: u32,
}

/// File information as a callback received it.
#[derive(Clone, Copy, Debug)]
pub struct FuseFileInfo(NativeFileInfo);

impl View for FuseFileInfo {
    type V = NativeFileInfo;

    closed spec fn view(&self) -> NativeFileInfo {
        self.0
    }
}

impl FuseFileInfo {
    pub fn new(info: NativeFileInfo) -> (wrapped: FuseFileInfo)
        ensures
            wrapped@ == info,
    {
        FuseFileInfo(info)
    }

    /// The native record.
    pub fn inner(&self) -> (info: &NativeFileInfo)
        ensures
            *info == self@,
    {
        &self.0
    }

    /// The open flags of the request.
    pub fn open_flags(&self) -> (flags: OpenFlags)
        ensures
            flags@ == self@.flags,
    {
        OpenFlags::from_bits(self.0.flags)
    }
}

} // verus!
