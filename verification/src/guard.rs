//! The panic boundary's bookkeeping. User code runs under a guard that
//! catches a panic; what the guard saw is judged here.

use crate::errno::{errno_number, ErrorCode, ENOTRECOVERABLE};
use crate::registry::{Registry, TypeKey};
use nix::errno::Errno;
use vstd::prelude::*;

verus! {

/// What the guard saw of one call into user code.
#[derive(Debug)]
pub enum ThunkOutcome<T> {
    /// The call returned, with this result.
    Returned(Result<T, Errno>),
    /// The call panicked; the text renders the panic's payload.
    Panicked(String),
}

/// The message of an error that user code returned.
pub open spec fn user_error_message(fs_name: Seq<char>, method: Seq<char>) -> Seq<char> {
    "Error in user code `"@ + fs_name + "::"@ + method + "`"@
}

/// The message of a panic in user code.
pub open spec fn panic_message(fs_name: Seq<char>, method: Seq<char>, payload: Seq<char>) -> Seq<
    char,
> {
    "PANIC on `"@ + fs_name + "::"@ + method + "`:\n\n"@ + payload + "\n"@
}

/// Judges one call into user code, the method `method` of the filesystem
/// type `fs_name`.
///
/// A result that user code returned is handed on: a value as it is, an error
/// with its number and a message that names the call. The registry stays as
/// it was.
///
/// After a panic nothing that the filesystem holds can be trusted, so the
/// registry is emptied, and the call fails with `ENOTRECOVERABLE` and a
/// message that carries the payload.
pub fn call_into_user_code<H, T>(
    registry: &mut Registry<H>,
    fs_name: &str,
    method: &str,
    outcome: ThunkOutcome<T>,
) -> (r: Result<T, (String, ErrorCode)>)
    ensures
        match outcome {
            ThunkOutcome::Returned(Ok(value)) => r == Ok::<T, (String, ErrorCode)>(value)
                && final(registry)@ == old(registry)@,
            ThunkOutcome::Returned(Err(errno)) => r is Err && r->Err_0.1@ == errno_number(errno)
                && r->Err_0.0@ == user_error_message(fs_name@, method@) && final(registry)@
                == old(registry)@,
            ThunkOutcome::Panicked(payload) => r is Err && r->Err_0.1@ == ENOTRECOVERABLE
                && r->Err_0.0@ == panic_message(fs_name@, method@, payload@) && final(registry)@
                == Map::<TypeKey, H>::empty(),
        },
{
    match outcome {
        ThunkOutcome::Returned(Ok(value)) => Ok(value),
        ThunkOutcome::Returned(Err(errno)) => {
            let mut message: String = String::from_str("Error in user code `");
            message.append(fs_name);
            message.append("::");
            message.append(method);
            message.append("`");
            Err((message, ErrorCode::from_errno(errno)))
        },
        ThunkOutcome::Panicked(payload) => {
            registry.clear();
            let mut message: String = String::from_str("PANIC on `");
            message.append(fs_name);
            message.append("::");
            message.append(method);
            message.append("`:\n\n");
            message.append(payload.as_str());
            message.append("\n");
            Err((message, ErrorCode::not_recoverable()))
        },
    }
}

} // verus!
