//! Preparing a mount: the checks on the mount point and the arguments, the
//! argument vector for the native run loop, and the registration of the
//! filesystem.

use crate::path::{find_nul, has_nul};
use crate::registry::{Registry, TypeKey};
use crate::trampoline::{all_encodable, encoded_names, name_encodable};
use vstd::prelude::*;
use vstd::utf8::{encode_utf8, valid_utf8};

verus! {

/// Why a mount did not come about.
#[derive(Clone, Copy, Debug, PartialEq, Eq, Structural)]
pub enum MountError {
    /// The mount point is not valid UTF-8.
    MountPointNotUnicode,
    /// The mount point holds a NUL and cannot be passed to native code.
    MountPointHasNul,
    /// The argument at this place holds a NUL and cannot be passed to
    /// native code.
    ArgumentHasNul { index: usize },
    /// The native run loop ended with this status, which is not zero.
    NativeFailure { status: i32 },
}

/// A mount that ran and ended well.
#[derive(Clone, Copy, Debug)]
pub struct FuseHandle(i32);

impl View for FuseHandle {
    type V = i32;

    closed spec fn view(&self) -> i32 {
        self.0
    }
}

impl FuseHandle {
    /// Judges the status with which the native run loop ended: zero is a
    /// mount that ended well, anything else a failure.
    pub fn from_status(status: i32) -> (r: Result<FuseHandle, MountError>)
        ensures
            status == 0 ==> r is Ok && r->Ok_0@ == 0,
            status != 0 ==> r == Err::<FuseHandle, MountError>(
                MountError::NativeFailure { status },
            ),
    {
        if status == 0 {
            Ok(FuseHandle(status))
        } else {
            Err(MountError::NativeFailure { status })
        }
    }

    /// The status of the native run loop.
    pub fn status(&self) -> (status: i32)
        ensures
            status == self@,
    {
        self.0
    }
}

/// The options that every mount runs with, each closed by a NUL: `-f`, stay
/// in the foreground; `-s`, serve requests on one thread; `-o` and
/// `auto_unmount`, unmount when the process ends.
pub open spec fn forced_options() -> Seq<Seq<u8>> {
    seq![
        seq![45u8, 102u8, 0u8],
        seq![45u8, 115u8, 0u8],
        seq![45u8, 111u8, 0u8],
        seq![97u8, 117u8, 116u8, 111u8, 95u8, 117u8, 110u8, 109u8, 111u8, 117u8, 110u8, 116u8, 0u8],
    ]
}

/// The argument vector of a mount: the caller's arguments, the forced
/// options and the mount point, each closed by a NUL.
pub open spec fn argument_vector(args: Seq<String>, mount_point: Seq<u8>) -> Seq<Seq<u8>> {
    encoded_names(args) + forced_options() + seq![mount_point + seq![0u8]]
}

/// The place of the first argument that holds a NUL.
pub open spec fn is_first_bad_argument(args: Seq<String>, index: int) -> bool {
    &&& 0 <= index < args.len()
    &&& !name_encodable(args[index]@)
    &&& forall|j: int| 0 <= j < index ==> name_encodable(#[trigger] args[j]@)
}

/// What a mount needs before the native run loop can start. The vector and
/// its strings have to stay alive for as long as the loop runs.
#[derive(Debug)]
pub struct MountPlan {
    pub argv: Vec<Vec<u8>>,
}

impl MountPlan {
    /// The argument vector as sequences of bytes.
    pub open spec fn spec_argv(&self) -> Seq<Seq<u8>> {
        Seq::new(self.argv@.len(), |i: int| self.argv@[i]@)
    }
}

fn push_forced_options(argv: &mut Vec<Vec<u8>>)
    ensures
        Seq::new(final(argv)@.len(), |i: int| final(argv)@[i]@) == Seq::new(
            old(argv)@.len(),
            |i: int| old(argv)@[i]@,
        ) + forced_options(),
{
    let ghost before = Seq::new(argv@.len(), |i: int| argv@[i]@);
    let mut foreground: Vec<u8> = Vec::new();
    foreground.push(45);
    foreground.push(102);
    foreground.push(0);
    let mut single_thread: Vec<u8> = Vec::new();
    single_thread.push(45);
    single_thread.push(115);
    single_thread.push(0);
    let mut option: Vec<u8> = Vec::new();
    option.push(45);
    option.push(111);
    option.push(0);
    let mut auto_unmount: Vec<u8> = Vec::new();
    auto_unmount.push(97);
    auto_unmount.push(117);
    auto_unmount.push(116);
    auto_unmount.push(111);
    auto_unmount.push(95);
    auto_unmount.push(117);
    auto_unmount.push(110);
    auto_unmount.push(109);
    auto_unmount.push(111);
    auto_unmount.push(117);
    auto_unmount.push(110);
    auto_unmount.push(116);
    auto_unmount.push(0);
    assert(foreground@ == forced_options()[0]);
    assert(single_thread@ == forced_options()[1]);
    assert(option@ == forced_options()[2]);
    assert(auto_unmount@ == forced_options()[3]);
    argv.push(foreground);
    argv.push(single_thread);
    argv.push(option);
    argv.push(auto_unmount);
    assert(Seq::new(argv@.len(), |i: int| argv@[i]@) == before + forced_options());
}

fn encode_arguments(args: &Vec<String>) -> (r: Result<Vec<Vec<u8>>, usize>)
    ensures
        all_encodable(args@) ==> r is Ok && Seq::new(
            r->Ok_0@.len(),
            |i: int| r->Ok_0@[i]@,
        ) == encoded_names(args@),
        !all_encodable(args@) ==> r is Err && is_first_bad_argument(args@, r->Err_0 as int),
{
    let mut argv: Vec<Vec<u8>> = Vec::new();
    let mut i: usize = 0;
    while i < args.len()
        invariant
            i <= args.len(),
            argv@.len() == i,
            forall|j: int| 0 <= j < i ==> name_encodable(#[trigger] args@[j]@),
            forall|j: int|
                0 <= j < i ==> (#[trigger] argv@[j])@ == encode_utf8(args@[j]@) + seq![0u8],
        decreases args.len() - i,
    {
        let bytes: &[u8] = args[i].as_str().as_bytes();
        if find_nul(bytes).is_some() {
            return Err(i);
        }
        let mut encoded: Vec<u8> = vstd::slice::slice_to_vec(bytes);
        encoded.push(0);
        argv.push(encoded);
        i += 1;
    }
    assert(Seq::new(argv@.len(), |i: int| argv@[i]@) == encoded_names(args@));
    Ok(argv)
}

/// What preparing a mount comes to, as far as the checks go: the first
/// failed check, or none.
pub open spec fn mount_check(args: Seq<String>, mount_point: Seq<u8>) -> Option<MountError> {
    if !valid_utf8(mount_point) {
        Some(MountError::MountPointNotUnicode)
    } else if has_nul(mount_point) {
        Some(MountError::MountPointHasNul)
    } else if !all_encodable(args) {
        Some(
            MountError::ArgumentHasNul {
                index: (choose|index: int| is_first_bad_argument(args, index)) as usize,
            },
        )
    } else {
        None
    }
}

/// The first argument that holds a NUL is unique.
pub proof fn lemma_first_bad_argument_unique(args: Seq<String>, index: int)
    requires
        is_first_bad_argument(args, index),
    ensures
        (choose|other: int| is_first_bad_argument(args, other)) == index,
{
    let other = choose|other: int| is_first_bad_argument(args, other);
    assert(is_first_bad_argument(args, other));
    if other < index {
        assert(name_encodable(args[other]@));
    }
    if index < other {
        assert(name_encodable(args[index]@));
    }
}

/// Prepares the mount of the filesystem `fs`, of the type `key`, at
/// `mount_point` with the run arguments `args`.
///
/// The mount point must be valid UTF-8, and neither it nor an argument may
/// hold a NUL. When a check fails, the registry stays as it was. Otherwise
/// `fs` is registered under `key` and the argument vector is returned.
pub fn fuse_init<H>(
    registry: &mut Registry<H>,
    key: TypeKey,
    fs: H,
    mount_point: &[u8],
    args: &Vec<String>,
) -> (r: Result<MountPlan, MountError>)
    ensures
        match mount_check(args@, mount_point@) {
            Some(error) => r == Err::<MountPlan, MountError>(error) && final(registry)@
                == old(registry)@,
            None => r is Ok && r->Ok_0.spec_argv() == argument_vector(args@, mount_point@)
                && final(registry)@ == old(registry)@.insert(key, fs),
        },
{
    if core::str::from_utf8(mount_point).is_err() {
        return Err(MountError::MountPointNotUnicode);
    }
    if find_nul(mount_point).is_some() {
        return Err(MountError::MountPointHasNul);
    }
    let mut argv: Vec<Vec<u8>> = match encode_arguments(args) {
        Ok(argv) => argv,
        Err(index) => {
            proof {
                lemma_first_bad_argument_unique(args@, index as int);
            }
            return Err(MountError::ArgumentHasNul { index });
        },
    };
    push_forced_options(&mut argv);
    let mut target: Vec<u8> = vstd::slice::slice_to_vec(mount_point);
    target.push(0);
    assert(target@ == mount_point@ + seq![0u8]);
    let ghost before = Seq::new(argv@.len(), |i: int| argv@[i]@);
    argv.push(target);
    assert(Seq::new(argv@.len(), |i: int| argv@[i]@) == before + seq![mount_point@ + seq![0u8]]);
    registry.register(key, fs);
    Ok(MountPlan { argv })
}

} // verus!
