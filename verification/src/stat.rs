//! File status records.

use crate::mode::{
    lemma_special_word, lemma_tag_with_rest, type_tag, valid_mode_word, word_file_type, word_mode_flags, word_permissions,
    FileType, ModeRangeError, TypedMode,
};
use vstd::prelude::*;

verus! {

/// A point in time as native code writes it.
#[derive(Clone, Copy, Debug, PartialEq, Eq, Structural)]
pub struct Timespec {
    pub tv_sec: i64,
    pub tv_nsec: i64,
}

/// The fields of the native status record.
#[derive(Clone, Copy, Debug, PartialEq, Eq, Structural)]
pub struct NativeStat {
    pub st_dev: u64,
    pub st_ino: u64,
    pub st_nlink: u64,
    pub st_mode: u32,
    pub st_uid: u32,
    pub st_gid: u32,
    pub st_rdev: u64,
    pub st_size: i64,
    pub st_blksize: i64,
    pub st_blocks: i64,
    pub st_atim: Timespec,
    pub st_mtim: Timespec,
    pub st_ctim: Timespec,
}

/// The record with the given link count, size and mode word, and zero in
/// every other field.
pub open spec fn simple_stat(st_mode: u32, st_nlink: u64, st_size: i64) -> NativeStat {
    NativeStat {
        st_dev: 0,
        st_ino: 0,
        st_nlink,
        st_mode,
        st_uid: 0,
        st_gid: 0,
        st_rdev: 0,
        st_size,
        st_blksize: 0,
        st_blocks: 0,
        st_atim: Timespec { tv_sec: 0, tv_nsec: 0 },
        st_mtim: Timespec { tv_sec: 0, tv_nsec: 0 },
        st_ctim: Timespec { tv_sec: 0, tv_nsec: 0 },
    }
}

/// A status record whose mode word is valid: its tag names a file type and
/// no bit lies outside the tag, the permissions and the special bits.
#[derive(Clone, Copy, Debug)]
pub struct Stat(NativeStat);

impl View for Stat {
    type V = NativeStat;

    closed spec fn view(&self) -> NativeStat {
        self.0
    }
}

/// The largest value of the bits that may accompany a file type: all
/// permission bits and all special bits.
pub const MODE_REST_MAX: u32 = 0o7777;

fn zeroed(st_mode: u32, st_nlink: u64, st_size: i64) -> (stat: NativeStat)
    ensures
        stat == simple_stat(st_mode, st_nlink, st_size),
{
    NativeStat {
        st_dev: 0,
        st_ino: 0,
        st_nlink,
        st_mode,
        st_uid: 0,
        st_gid: 0,
        st_rdev: 0,
        st_size,
        st_blksize: 0,
        st_blocks: 0,
        st_atim: Timespec { tv_sec: 0, tv_nsec: 0 },
        st_mtim: Timespec { tv_sec: 0, tv_nsec: 0 },
        st_ctim: Timespec { tv_sec: 0, tv_nsec: 0 },
    }
}

impl Stat {
    #[verifier::type_invariant]
    spec fn mode_is_valid(self) -> bool {
        valid_mode_word(self.0.st_mode)
    }

    /// Wraps a native record without looking at it. The caller answers for
    /// the mode word.
    pub fn new_unsafe(stat: NativeStat) -> (wrapped: Stat)
        requires
            valid_mode_word(stat.st_mode),
        ensures
            wrapped@ == stat,
    {
        Stat(stat)
    }

    /// Wraps a native record if its mode word is valid.
    pub fn from_native(stat: NativeStat) -> (wrapped: Option<Stat>)
        ensures
            valid_mode_word(stat.st_mode) ==> wrapped is Some && wrapped->Some_0@ == stat,
            !valid_mode_word(stat.st_mode) ==> wrapped is None,
    {
        match TypedMode::from_word(stat.st_mode) {
            None => None,
            Some(mode) => {
                if mode.word() == stat.st_mode {
                    proof {
                        lemma_special_word(stat.st_mode);
                    }
                    Some(Stat(stat))
                } else {
                    proof {
                        lemma_special_word(stat.st_mode);
                    }
                    None
                }
            },
        }
    }

    /// The record of a file of type `mode` whose other mode bits are
    /// `mode_rest`, with `n_link` links and `size` bytes. Fails, reporting
    /// the value and the accepted range, when `mode_rest` has a bit outside
    /// the permissions and the special bits.
    pub fn new_file(mode: FileType, mode_rest: u32, n_link: u64, size: i64) -> (r: Result<
        Stat,
        ModeRangeError,
    >)
        ensures
            mode_rest <= MODE_REST_MAX ==> r is Ok && r->Ok_0@ == simple_stat(
                type_tag(mode) | mode_rest,
                n_link,
                size,
            ) && r->Ok_0@.st_mode == type_tag(mode) + mode_rest,
            mode_rest > MODE_REST_MAX ==> r == Err::<Stat, ModeRangeError>(
                ModeRangeError { value: mode_rest, min: 0, max: MODE_REST_MAX },
            ),
    {
        if mode_rest > MODE_REST_MAX {
            return Err(ModeRangeError { value: mode_rest, min: 0, max: MODE_REST_MAX });
        }
        proof {
            lemma_tag_with_rest(mode, mode_rest);
        }
        Ok(Stat(zeroed(mode.tag() | mode_rest, n_link, size)))
    }

    /// The record of an object with the given typed mode, `n_link` links and
    /// `size` bytes.
    pub fn new_simple(mode: TypedMode, n_link: u64, size: i64) -> (stat: Stat)
        ensures
            stat@ == simple_stat(mode.spec_word(), n_link, size),
    {
        let word: u32 = mode.word();
        Stat(zeroed(word, n_link, size))
    }

    /// The native record.
    pub fn inner(&self) -> (stat: &NativeStat)
        ensures
            *stat == self@,
            valid_mode_word(stat.st_mode),
    {
        proof {
            use_type_invariant(self);
        }
        &self.0
    }

    /// The typed parts of the mode word.
    pub fn mode(&self) -> (mode: TypedMode)
        ensures
            Some(mode.file_type) == word_file_type(self@.st_mode),
            mode.permissions@ == word_permissions(self@.st_mode),
            mode.flags == word_mode_flags(self@.st_mode),
            mode.spec_word() == self@.st_mode,
    {
        proof {
            use_type_invariant(self);
            lemma_special_word(self.0.st_mode);
        }
        match TypedMode::from_word(self.0.st_mode) {
            Some(mode) => mode,
            None => unreached(),
        }
    }
}

} // verus!
