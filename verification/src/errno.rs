//! Error numbers and the return-code convention of native callbacks: zero or
//! a count for success, the negated error number for failure.

use nix::errno::Errno;
use vstd::prelude::*;

verus! {

/// `nix::errno::Errno`, an error number of the platform. Its variants are
/// not visible to the verifier; a value is only carried and converted.
#[verifier::external_type_specification]
#[verifier::external_body]
pub struct ExErrno(Errno);

/// The number that the cast `errno as i32` gives.
pub uninterp spec fn errno_number(errno: Errno) -> int;

/// Casts an `Errno` to its number. `Errno` is a field-less enum with an `i32`
/// representation whose discriminants are zero, for the unknown error, and
/// the error constants of the platform, all of them positive; the cast
/// yields the discriminant.
#[verifier::external_body]
fn errno_to_raw(errno: Errno) -> (raw: i32)
    ensures
        raw == errno_number(errno),
        0 <= raw,
{
    errno as i32
}

/// Input/output error.
pub const EIO: i32 = 5;

/// No such file or directory.
pub const ENOENT: i32 = 2;

/// Permission denied.
pub const EACCES: i32 = 13;

/// Invalid argument.
pub const EINVAL: i32 = 22;

/// Function not implemented.
pub const ENOSYS: i32 = 38;

/// State not recoverable.
pub const ENOTRECOVERABLE: i32 = 131;

/// An error number, never negative, so that its negation is a valid return
/// code.
#[derive(Clone, Copy, Debug)]
pub struct ErrorCode {
    raw: i32,
}

impl View for ErrorCode {
    type V = int;

    closed spec fn view(&self) -> int {
        self.raw as int
    }
}

impl ErrorCode {
    #[verifier::type_invariant]
    spec fn non_negative(self) -> bool {
        0 <= self.raw
    }

    /// Accepts any number that is not negative.
    pub fn new(raw: i32) -> (code: Option<ErrorCode>)
        ensures
            raw >= 0 ==> code is Some && code->Some_0@ == raw,
            raw < 0 ==> code is None,
    {
        if raw >= 0 {
            Some(ErrorCode { raw })
        } else {
            None
        }
    }

    /// The error number of an `Errno`.
    pub fn from_errno(errno: Errno) -> (code: ErrorCode)
        ensures
            code@ == errno_number(errno),
    {
        ErrorCode { raw: errno_to_raw(errno) }
    }

    /// Input/output error.
    pub fn io() -> (code: ErrorCode)
        ensures
            code@ == EIO,
    {
        ErrorCode { raw: EIO }
    }

    /// No such file or directory.
    pub fn not_found() -> (code: ErrorCode)
        ensures
            code@ == ENOENT,
    {
        ErrorCode { raw: ENOENT }
    }

    /// Permission denied.
    pub fn permission_denied() -> (code: ErrorCode)
        ensures
            code@ == EACCES,
    {
        ErrorCode { raw: EACCES }
    }

    /// Invalid argument.
    pub fn invalid_argument() -> (code: ErrorCode)
        ensures
            code@ == EINVAL,
    {
        ErrorCode { raw: EINVAL }
    }

    /// Function not implemented.
    pub fn not_implemented() -> (code: ErrorCode)
        ensures
            code@ == ENOSYS,
    {
        ErrorCode { raw: ENOSYS }
    }

    /// State not recoverable.
    pub fn not_recoverable() -> (code: ErrorCode)
        ensures
            code@ == ENOTRECOVERABLE,
    {
        ErrorCode { raw: ENOTRECOVERABLE }
    }

    /// The error number.
    pub fn raw(&self) -> (raw: i32)
        ensures
            raw == self@,
            raw >= 0,
    {
        proof {
            use_type_invariant(self);
        }
        self.raw
    }

    /// The return code that reports this error to native code: its negation.
    pub fn return_code(&self) -> (code: i32)
        ensures
            code == -self@,
            code <= 0,
    {
        proof {
            use_type_invariant(self);
        }
        0 - self.raw
    }
}

} // verus!
