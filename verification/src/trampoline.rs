//! The protocol of the native callbacks. Each of them checks its pointers,
//! decodes the path, looks the filesystem up, calls user code under the
//! panic guard, hands the result out and answers with a return code: zero
//! (for a read, the count) on success, a negated error number on failure.
//!
//! Reading and writing native memory and running the guard are the host's
//! part. The callback's decisions are here: one function for what happens
//! before user code runs, one call of user code, and one function for what
//! happens after it.

use crate::errno::{errno_number, ErrorCode, EACCES, EINVAL, EIO, ENOSYS, ENOTRECOVERABLE};
use crate::filesystem::{Filesystem, GetfattrRetVal, OpenRetVal, ReadRetVal, ReaddirRetVal};
use crate::flags::{flags_read_only, FuseFileInfo, OpenFlags};
use crate::guard::{call_into_user_code, ThunkOutcome};
use crate::path::{decoded_path, find_nul, has_nul, path_from_c_ptr};
use crate::registry::{fetch_fs_from_registry, Registry, TypeKey};
use crate::stat::NativeStat;
use nix::errno::Errno;
use vstd::prelude::*;

verus! {

/// A pointer as native code passed it: its address, and the alignment that
/// the type it points to asks for.
#[derive(Clone, Copy, Debug, PartialEq, Eq, Structural)]
pub struct RawPointer {
    pub address: usize,
    pub alignment: usize,
}

/// A pointer may be followed when it is not null and its address is a
/// multiple of the alignment.
pub open spec fn pointer_valid(pointer: RawPointer) -> bool {
    &&& pointer.address != 0
    &&& pointer.alignment != 0
    &&& pointer.address as int % pointer.alignment as int == 0
}

impl RawPointer {
    /// Whether the pointer may be followed.
    pub fn is_valid(&self) -> (valid: bool)
        ensures
            valid == pointer_valid(*self),
    {
        self.address != 0 && self.alignment != 0 && self.address % self.alignment == 0
    }
}

/// What happens to a request before user code runs. A pointer that may not
/// be followed, or a path that does not decode, fails it with `EINVAL`; a
/// filesystem that is not registered fails it with `ENOTRECOVERABLE`.
/// Otherwise it goes on with the decoded path.
pub open spec fn entry_result(pointers_valid: bool, path_bytes: Seq<u8>, registered: bool) -> Result<
    Seq<char>,
    int,
> {
    if !pointers_valid {
        Err(-EINVAL)
    } else {
        match decoded_path(path_bytes) {
            None => Err(-EINVAL),
            Some(path) => if registered {
                Ok(path)
            } else {
                Err(-ENOTRECOVERABLE)
            },
        }
    }
}

/// User code runs only for a request whose pointers may all be followed,
/// whose path decodes and whose filesystem is registered; every other
/// request ends with a negative return code.
pub proof fn lemma_entry_fails_closed(pointers_valid: bool, path_bytes: Seq<u8>, registered: bool)
    ensures
        entry_result(pointers_valid, path_bytes, registered) is Ok <==> pointers_valid
            && decoded_path(path_bytes) is Some && registered,
        entry_result(pointers_valid, path_bytes, registered) matches Err(code) ==> code == -EINVAL
            || code == -ENOTRECOVERABLE,
        entry_result(pointers_valid, path_bytes, registered) matches Err(code) ==> code < 0,
{
}

/// Once a panic has emptied the registry, no request reaches user code any
/// more, whichever type it is for.
pub proof fn lemma_poisoned_registry_fails_closed<H, T>(
    before: Map<TypeKey, H>,
    payload: String,
    pointers_valid: bool,
    path_bytes: Seq<u8>,
    key: TypeKey,
)
    ensures
        entry_result(
            pointers_valid,
            path_bytes,
            registry_after(before, ThunkOutcome::<T>::Panicked(payload)).contains_key(key),
        ) is Err,
{
}

fn prepare<'a, H>(
    pointers_valid: bool,
    registry: &'a Registry<H>,
    key: TypeKey,
    fs_name: &str,
    path_bytes: &[u8],
) -> (r: Result<(String, &'a H), i32>)
    ensures
        match entry_result(pointers_valid, path_bytes@, registry@.contains_key(key)) {
            Ok(path) => r is Ok && r->Ok_0.0@ == path && *r->Ok_0.1 == registry@[key],
            Err(code) => r is Err && r->Err_0 == code,
        },
{
    if !pointers_valid {
        return Err(ErrorCode::invalid_argument().return_code());
    }
    let path: String = match path_from_c_ptr(path_bytes) {
        Ok(path) => path,
        Err(failure) => {
            return Err(failure.1.return_code());
        },
    };
    match fetch_fs_from_registry(registry, key, fs_name) {
        Ok(fs) => Ok((path, fs)),
        Err(failure) => Err(failure.1.return_code()),
    }
}

/// An attribute query that may run: its path is decoded.
#[derive(Debug)]
pub struct AttributeCall {
    path: String,
}

/// A directory listing that may run.
#[derive(Debug)]
pub struct DirectoryCall {
    path: String,
}

/// An open that may run.
#[derive(Debug)]
pub struct OpenCall {
    path: String,
    flags: OpenFlags,
}

/// A read that may run.
#[derive(Debug)]
pub struct ReadCall {
    path: String,
    max_bytes: usize,
    offset: u64,
}

impl AttributeCall {
    /// The decoded path.
    pub closed spec fn path(&self) -> Seq<char> {
        self.path@
    }
}

impl DirectoryCall {
    /// The decoded path.
    pub closed spec fn path(&self) -> Seq<char> {
        self.path@
    }
}

impl OpenCall {
    /// The decoded path.
    pub closed spec fn path(&self) -> Seq<char> {
        self.path@
    }

    /// The flags of the request.
    pub closed spec fn flags(&self) -> OpenFlags {
        self.flags
    }
}

impl ReadCall {
    #[verifier::type_invariant]
    spec fn count_fits(self) -> bool {
        self.max_bytes <= MAX_COUNT
    }

    /// The decoded path.
    pub closed spec fn path(&self) -> Seq<char> {
        self.path@
    }

    /// The largest number of bytes that user code may return.
    pub closed spec fn max_bytes(&self) -> usize {
        self.max_bytes
    }

    /// The place in the file where the read starts.
    pub closed spec fn offset(&self) -> u64 {
        self.offset
    }
}

/// The entry of the attribute callback. `path_bytes` is the memory at
/// `path`, consulted only when all three pointers may be followed.
pub fn getattr<'a, H>(
    registry: &'a Registry<H>,
    key: TypeKey,
    fs_name: &str,
    path: RawPointer,
    stat_out: RawPointer,
    file_info: RawPointer,
    path_bytes: &[u8],
) -> (r: Result<(AttributeCall, &'a H), i32>)
    ensures
        match entry_result(
            pointer_valid(path) && pointer_valid(stat_out) && pointer_valid(file_info),
            path_bytes@,
            registry@.contains_key(key),
        ) {
            Ok(decoded) => r is Ok && r->Ok_0.0.path() == decoded && *r->Ok_0.1 == registry@[key],
            Err(code) => r is Err && r->Err_0 == code,
        },
{
    let pointers_valid: bool = path.is_valid() && stat_out.is_valid() && file_info.is_valid();
    match prepare(pointers_valid, registry, key, fs_name, path_bytes) {
        Ok((path, fs)) => Ok((AttributeCall { path }, fs)),
        Err(code) => Err(code),
    }
}

/// The entry of the directory callback. `filler` is the callback that
/// takes the entries, `buffer` the place it fills.
pub fn readdir<'a, H>(
    registry: &'a Registry<H>,
    key: TypeKey,
    fs_name: &str,
    path: RawPointer,
    buffer: RawPointer,
    filler: RawPointer,
    file_info: RawPointer,
    path_bytes: &[u8],
) -> (r: Result<(DirectoryCall, &'a H), i32>)
    ensures
        match entry_result(
            pointer_valid(path) && pointer_valid(buffer) && pointer_valid(filler) && pointer_valid(
                file_info,
            ),
            path_bytes@,
            registry@.contains_key(key),
        ) {
            Ok(decoded) => r is Ok && r->Ok_0.0.path() == decoded && *r->Ok_0.1 == registry@[key],
            Err(code) => r is Err && r->Err_0 == code,
        },
{
    let pointers_valid: bool = path.is_valid() && buffer.is_valid() && filler.is_valid()
        && file_info.is_valid();
    match prepare(pointers_valid, registry, key, fs_name, path_bytes) {
        Ok((path, fs)) => Ok((DirectoryCall { path }, fs)),
        Err(code) => Err(code),
    }
}

/// The entry of the open callback. `info` is the record at `file_info`,
/// consulted only when both pointers may be followed.
pub fn open<'a, H>(
    registry: &'a Registry<H>,
    key: TypeKey,
    fs_name: &str,
    path: RawPointer,
    file_info: RawPointer,
    path_bytes: &[u8],
    info: FuseFileInfo,
) -> (r: Result<(OpenCall, &'a H), i32>)
    ensures
        match entry_result(
            pointer_valid(path) && pointer_valid(file_info),
            path_bytes@,
            registry@.contains_key(key),
        ) {
            Ok(decoded) => r is Ok && r->Ok_0.0.path() == decoded && r->Ok_0.0.flags()@
                == info@.flags && *r->Ok_0.1 == registry@[key],
            Err(code) => r is Err && r->Err_0 == code,
        },
{
    let pointers_valid: bool = path.is_valid() && file_info.is_valid();
    match prepare(pointers_valid, registry, key, fs_name, path_bytes) {
        Ok((path, fs)) => Ok((OpenCall { path, flags: info.open_flags() }, fs)),
        Err(code) => Err(code),
    }
}

/// The largest count that a return code can report.
pub const MAX_COUNT: usize = 0x7fff_ffff;

/// The number of bytes that user code is asked for when native code offers
/// a buffer of `size` bytes: the size, but no more than a return code can
/// report.
pub open spec fn read_limit(size: usize) -> usize {
    if size <= MAX_COUNT {
        size
    } else {
        MAX_COUNT
    }
}

/// The entry of the read callback. A negative offset is refused like a
/// pointer that may not be followed.
pub fn read<'a, H>(
    registry: &'a Registry<H>,
    key: TypeKey,
    fs_name: &str,
    path: RawPointer,
    buffer: RawPointer,
    size: usize,
    offset: i64,
    file_info: RawPointer,
    path_bytes: &[u8],
) -> (r: Result<(ReadCall, &'a H), i32>)
    ensures
        match entry_result(
            pointer_valid(path) && pointer_valid(buffer) && pointer_valid(file_info) && offset
                >= 0,
            path_bytes@,
            registry@.contains_key(key),
        ) {
            Ok(decoded) => r is Ok && r->Ok_0.0.path() == decoded && r->Ok_0.0.max_bytes()
                == read_limit(size) && r->Ok_0.0.offset() == offset && *r->Ok_0.1
                == registry@[key],
            Err(code) => r is Err && r->Err_0 == code,
        },
{
    let arguments_valid: bool = path.is_valid() && buffer.is_valid() && file_info.is_valid()
        && offset >= 0;
    match prepare(arguments_valid, registry, key, fs_name, path_bytes) {
        Ok((path, fs)) => {
            let max_bytes: usize = if size <= MAX_COUNT {
                size
            } else {
                MAX_COUNT
            };
            Ok((ReadCall { path, max_bytes, offset: offset as u64 }, fs))
        },
        Err(code) => Err(code),
    }
}


/// The answer of the attribute callback: the return code and, on success
/// only, the record to write through the output pointer.
#[derive(Debug)]
pub struct AttributeReply {
    pub code: i32,
    pub stat: Option<NativeStat>,
}

/// The answer of the read callback: the return code and the bytes to copy
/// into the buffer, none of them on failure.
#[derive(Debug)]
pub struct ReadReply {
    pub code: i32,
    pub bytes: Vec<u8>,
}

/// The return code of a call into user code that failed, and what has
/// become of the registry: an error that user code returned is negated and
/// leaves the registry alone, a panic answers `ENOTRECOVERABLE` and empties
/// it.
pub open spec fn failure_code<T>(outcome: ThunkOutcome<T>) -> int
    recommends
        !(outcome matches ThunkOutcome::Returned(Ok(_))),
{
    match outcome {
        ThunkOutcome::Returned(Err(errno)) => -errno_number(errno),
        _ => -ENOTRECOVERABLE,
    }
}

/// The registry after a call into user code: emptied by a panic, otherwise
/// as before.
pub open spec fn registry_after<H, T>(before: Map<TypeKey, H>, outcome: ThunkOutcome<T>) -> Map<
    TypeKey,
    H,
> {
    match outcome {
        ThunkOutcome::Panicked(_) => Map::empty(),
        _ => before,
    }
}

impl AttributeCall {
    /// The decoded path.
    pub fn path_str(&self) -> (path: &str)
        ensures
            path@ == self.path(),
    {
        self.path.as_str()
    }

    /// Calls the filesystem's attribute query with the decoded path and
    /// returns what it returned. The host runs this under its panic guard.
    pub fn invoke<FS: Filesystem>(&self, fs: &FS) -> (r: Result<GetfattrRetVal, Errno>)
        ensures
            attributes_returned(fs, self.path(), r),
    {
        fs.getattr(self.path.as_str())
    }

    /// The exit of the attribute callback. On success the record goes out
    /// and the code is zero; on failure nothing goes out.
    pub fn complete<H>(
        self,
        registry: &mut Registry<H>,
        fs_name: &str,
        outcome: ThunkOutcome<GetfattrRetVal>,
    ) -> (reply: AttributeReply)
        ensures
            final(registry)@ == registry_after(old(registry)@, outcome),
            match outcome {
                ThunkOutcome::Returned(Ok(result)) => reply.code == 0 && reply.stat == Some(
                    result.stat@,
                ),
                _ => reply.code == failure_code(outcome) && reply.stat is None,
            },
    {
        match call_into_user_code(registry, fs_name, "getattr", outcome) {
            Ok(result) => AttributeReply { code: 0, stat: Some(*result.stat.inner()) },
            Err(failure) => AttributeReply { code: failure.1.return_code(), stat: None },
        }
    }
}

impl OpenCall {
    /// The decoded path.
    pub fn path_str(&self) -> (path: &str)
        ensures
            path@ == self.path(),
    {
        self.path.as_str()
    }

    /// The flags of the request.
    pub fn open_flags(&self) -> (flags: OpenFlags)
        ensures
            flags == self.flags(),
    {
        self.flags
    }

    /// Calls the filesystem's open with the decoded path and the flags and
    /// returns what it returned. The host runs this under its panic guard.
    pub fn invoke<FS: Filesystem>(&self, fs: &FS) -> (r: Result<OpenRetVal, Errno>)
        ensures
            open_returned(fs, self.path(), self.flags(), r),
    {
        fs.open(self.path.as_str(), self.flags)
    }

    /// The exit of the open callback. Files can only be read: when user
    /// code agreed, an access mode other than reading only is still refused
    /// with `EACCES`.
    pub fn complete<H>(
        self,
        registry: &mut Registry<H>,
        fs_name: &str,
        outcome: ThunkOutcome<OpenRetVal>,
    ) -> (code: i32)
        ensures
            final(registry)@ == registry_after(old(registry)@, outcome),
            match outcome {
                ThunkOutcome::Returned(Ok(_)) => code == (if flags_read_only(self.flags()@) {
                    0
                } else {
                    -EACCES
                }),
                _ => code == failure_code(outcome),
            },
    {
        match call_into_user_code(registry, fs_name, "open", outcome) {
            Ok(_) => {
                if self.flags.is_read_only() {
                    0
                } else {
                    ErrorCode::permission_denied().return_code()
                }
            },
            Err(failure) => failure.1.return_code(),
        }
    }
}

/// The return code of a read whose user code returned `length` bytes when
/// at most `limit` were asked for: the count, or `ENOSYS` negated when
/// there are too many. Nothing is cut off.
pub open spec fn read_code(limit: usize, length: nat) -> int {
    if length <= limit {
        length as int
    } else {
        -ENOSYS
    }
}

impl ReadCall {
    /// The decoded path.
    pub fn path_str(&self) -> (path: &str)
        ensures
            path@ == self.path(),
    {
        self.path.as_str()
    }

    /// The largest number of bytes that user code may return.
    pub fn limit(&self) -> (max_bytes: usize)
        ensures
            max_bytes == self.max_bytes(),
            max_bytes <= MAX_COUNT,
    {
        proof {
            use_type_invariant(self);
        }
        self.max_bytes
    }

    /// The place in the file where the read starts.
    pub fn start(&self) -> (offset: u64)
        ensures
            offset == self.offset(),
    {
        self.offset
    }

    /// Calls the filesystem's read with the decoded path, the limit and the
    /// offset and returns what it returned. The host runs this under its
    /// panic guard.
    pub fn invoke<FS: Filesystem>(&self, fs: &FS) -> (r: Result<ReadRetVal, Errno>)
        ensures
            read_returned(fs, self.path(), self.max_bytes(), self.offset(), r),
    {
        fs.read(self.path.as_str(), self.max_bytes, self.offset)
    }

    /// The exit of the read callback. Content within the limit goes out
    /// whole and the code is its length; longer content fails the read with
    /// `ENOSYS`, and on any failure no byte goes out.
    pub fn complete<H>(
        self,
        registry: &mut Registry<H>,
        fs_name: &str,
        outcome: ThunkOutcome<ReadRetVal>,
    ) -> (reply: ReadReply)
        ensures
            final(registry)@ == registry_after(old(registry)@, outcome),
            match outcome {
                ThunkOutcome::Returned(Ok(result)) => reply.code == read_code(
                    self.max_bytes(),
                    result.content@.len(),
                ) && reply.bytes@ == (if result.content@.len() <= self.max_bytes() {
                    result.content@
                } else {
                    Seq::<u8>::empty()
                }),
                _ => reply.code == failure_code(outcome) && reply.bytes@ == Seq::<u8>::empty(),
            },
    {
        proof {
            use_type_invariant(&self);
        }
        match call_into_user_code(registry, fs_name, "read", outcome) {
            Ok(result) => {
                let length: usize = result.content.len();
                if length <= self.max_bytes {
                    ReadReply { code: length as i32, bytes: result.content }
                } else {
                    ReadReply {
                        code: ErrorCode::not_implemented().return_code(),
                        bytes: Vec::new(),
                    }
                }
            },
            Err(failure) => ReadReply { code: failure.1.return_code(), bytes: Vec::new() },
        }
    }
}


/// A name as the filler takes it: its UTF-8 bytes and a closing NUL.
pub open spec fn encoded_name(name: Seq<char>) -> Seq<u8> {
    vstd::utf8::encode_utf8(name) + seq![0u8]
}

/// Whether a name can be passed to the filler: its bytes hold no NUL, which
/// would end it early.
pub open spec fn name_encodable(name: Seq<char>) -> bool {
    !has_nul(vstd::utf8::encode_utf8(name))
}

/// Whether every one of the names can be passed to the filler.
pub open spec fn all_encodable(entries: Seq<String>) -> bool {
    forall|i: int| 0 <= i < entries.len() ==> name_encodable(#[trigger] entries[i]@)
}

/// The names as the filler takes them, in order.
pub open spec fn encoded_names(entries: Seq<String>) -> Seq<Seq<u8>> {
    Seq::new(entries.len(), |i: int| encoded_name(entries[i]@))
}

/// How far the filler has come: the names to pass, how many of them it has
/// taken, and whether it has refused one.
pub struct FillState {
    pub names: Seq<Seq<u8>>,
    pub taken: nat,
    pub refused: bool,
}

/// The entries of a listing on their way to the filler, one at a time. With
/// each name the host passes the filler a null status pointer and no flags.
#[derive(Debug)]
pub struct DirectoryFill {
    names: Vec<Vec<u8>>,
    taken: usize,
    refused: bool,
}

impl View for DirectoryFill {
    type V = FillState;

    closed spec fn view(&self) -> FillState {
        FillState {
            names: Seq::new(self.names@.len(), |i: int| self.names@[i]@),
            taken: self.taken as nat,
            refused: self.refused,
        }
    }
}

/// Whether a name is waiting to be passed to the filler.
pub open spec fn fill_pending(state: FillState) -> bool {
    !state.refused && state.taken < state.names.len()
}

/// The return code of the directory callback once nothing is waiting: zero
/// when the filler took every name, `EIO` negated when it refused one.
pub open spec fn fill_code(state: FillState) -> int {
    if state.refused {
        -EIO
    } else {
        0
    }
}

/// The state after the filler answered `status` for the waiting name: zero
/// takes the name, anything else refuses it and ends the listing. Without a
/// waiting name nothing changes.
pub open spec fn fill_recorded(state: FillState, status: i32) -> FillState {
    if !fill_pending(state) {
        state
    } else if status == 0 {
        FillState { taken: state.taken + 1, ..state }
    } else {
        FillState { refused: true, ..state }
    }
}

/// Once the filler has refused a name, no further name is passed to it,
/// whatever it answers afterwards, and the code stays `EIO` negated.
pub proof fn lemma_refusal_is_final(state: FillState, status: i32)
    requires
        state.refused,
    ensures
        !fill_pending(state),
        fill_recorded(state, status) == state,
        fill_code(fill_recorded(state, status)) == -EIO,
{
}

impl DirectoryFill {
    #[verifier::type_invariant]
    spec fn in_bounds(self) -> bool {
        self.taken <= self.names@.len()
    }

    /// The name to pass to the filler next, if one is waiting.
    pub fn next_name(&self) -> (name: Option<&Vec<u8>>)
        ensures
            fill_pending(self@) ==> name is Some && name->Some_0@ == self@.names[self@.taken as int],
            !fill_pending(self@) ==> name is None,
    {
        proof {
            use_type_invariant(self);
        }
        if !self.refused && self.taken < self.names.len() {
            Some(&self.names[self.taken])
        } else {
            None
        }
    }

    /// Records the filler's answer for the waiting name.
    pub fn record(&mut self, status: i32)
        ensures
            final(self)@ == fill_recorded(old(self)@, status),
    {
        proof {
            use_type_invariant(&*self);
        }
        if !self.refused && self.taken < self.names.len() {
            if status == 0 {
                self.taken = self.taken + 1;
            } else {
                self.refused = true;
            }
        }
    }

    /// Whether nothing is waiting any more.
    pub fn finished(&self) -> (done: bool)
        ensures
            done == !fill_pending(self@),
    {
        proof {
            use_type_invariant(self);
        }
        self.refused || self.taken >= self.names.len()
    }

    /// The return code of the directory callback.
    pub fn code(&self) -> (code: i32)
        ensures
            code == fill_code(self@),
    {
        if self.refused {
            ErrorCode::io().return_code()
        } else {
            0
        }
    }
}

fn encode_name(name: &str) -> (encoded: Option<Vec<u8>>)
    ensures
        name_encodable(name@) ==> encoded is Some && encoded->Some_0@ == encoded_name(name@),
        !name_encodable(name@) ==> encoded is None,
{
    let bytes: &[u8] = name.as_bytes();
    if find_nul(bytes).is_some() {
        return None;
    }
    let mut encoded: Vec<u8> = Vec::new();
    let mut i: usize = 0;
    while i < bytes.len()
        invariant
            i <= bytes.len(),
            encoded@ == bytes@.subrange(0, i as int),
        decreases bytes.len() - i,
    {
        encoded.push(bytes[i]);
        i += 1;
    }
    encoded.push(0);
    assert(bytes@.subrange(0, bytes.len() as int) == bytes@);
    Some(encoded)
}

fn encode_names(entries: &Vec<String>) -> (encoded: Option<Vec<Vec<u8>>>)
    ensures
        all_encodable(entries@) ==> encoded is Some && Seq::new(
            encoded->Some_0@.len(),
            |i: int| encoded->Some_0@[i]@,
        ) == encoded_names(entries@),
        !all_encodable(entries@) ==> encoded is None,
{
    let mut names: Vec<Vec<u8>> = Vec::new();
    let mut i: usize = 0;
    while i < entries.len()
        invariant
            i <= entries.len(),
            names@.len() == i,
            forall|j: int| 0 <= j < i ==> name_encodable(#[trigger] entries@[j]@),
            forall|j: int| 0 <= j < i ==> (#[trigger] names@[j])@ == encoded_name(entries@[j]@),
        decreases entries.len() - i,
    {
        match encode_name(entries[i].as_str()) {
            Some(name) => {
                names.push(name);
            },
            None => {
                return None;
            },
        }
        i += 1;
    }
    assert(Seq::new(names@.len(), |i: int| names@[i]@) == encoded_names(entries@));
    Some(names)
}

impl DirectoryCall {
    /// The decoded path.
    pub fn path_str(&self) -> (path: &str)
        ensures
            path@ == self.path(),
    {
        self.path.as_str()
    }

    /// Calls the filesystem's directory listing with the decoded path and
    /// returns what it returned. The host runs this under its panic guard.
    pub fn invoke<FS: Filesystem>(&self, fs: &FS) -> (r: Result<ReaddirRetVal, Errno>)
        ensures
            listing_returned(fs, self.path(), r),
    {
        fs.readdir(self.path.as_str())
    }

    /// The exit of the directory callback, up to the filler. A listing
    /// whose names can all be passed on starts with nothing taken; one with
    /// a name that cannot fails with `EIO` before the filler sees any.
    pub fn complete<H>(
        self,
        registry: &mut Registry<H>,
        fs_name: &str,
        outcome: ThunkOutcome<ReaddirRetVal>,
    ) -> (r: Result<DirectoryFill, i32>)
        ensures
            final(registry)@ == registry_after(old(registry)@, outcome),
            match outcome {
                ThunkOutcome::Returned(Ok(result)) => if all_encodable(result.entries@) {
                    r is Ok && r->Ok_0@ == (FillState {
                        names: encoded_names(result.entries@),
                        taken: 0,
                        refused: false,
                    })
                } else {
                    r is Err && r->Err_0 == -EIO
                },
                _ => r is Err && r->Err_0 == failure_code(outcome),
            },
    {
        match call_into_user_code(registry, fs_name, "readdir", outcome) {
            Ok(result) => match encode_names(&result.entries) {
                Some(names) => Ok(DirectoryFill { names, taken: 0, refused: false }),
                None => Err(ErrorCode::io().return_code()),
            },
            Err(failure) => Err(failure.1.return_code()),
        }
    }
}

/// `r` is what the attribute query of `fs` returned when it was called with
/// the path `path`.
pub open spec fn attributes_returned<FS: Filesystem>(
    fs: &FS,
    path: Seq<char>,
    r: Result<GetfattrRetVal, Errno>,
) -> bool {
    exists|p: &str| p@ == path && #[trigger] call_ensures(FS::getattr, (fs, p), r)
}

/// `r` is what the directory listing of `fs` returned when it was called
/// with the path `path`.
pub open spec fn listing_returned<FS: Filesystem>(
    fs: &FS,
    path: Seq<char>,
    r: Result<ReaddirRetVal, Errno>,
) -> bool {
    exists|p: &str| p@ == path && #[trigger] call_ensures(FS::readdir, (fs, p), r)
}

/// `r` is what the open of `fs` returned when it was called with the path
/// `path` and the flags `flags`.
pub open spec fn open_returned<FS: Filesystem>(
    fs: &FS,
    path: Seq<char>,
    flags: OpenFlags,
    r: Result<OpenRetVal, Errno>,
) -> bool {
    exists|p: &str| p@ == path && #[trigger] call_ensures(FS::open, (fs, p, flags), r)
}

/// `r` is what the read of `fs` returned when it was called with the path
/// `path`, the limit `max_bytes` and the offset `offset`.
pub open spec fn read_returned<FS: Filesystem>(
    fs: &FS,
    path: Seq<char>,
    max_bytes: usize,
    offset: u64,
    r: Result<ReadRetVal, Errno>,
) -> bool {
    exists|p: &str| p@ == path && #[trigger] call_ensures(FS::read, (fs, p, max_bytes, offset), r)
}

} // verus!
