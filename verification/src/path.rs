//! Paths as native code passes them: a run of bytes that ends at the first
//! NUL and must be valid UTF-8.

use crate::errno::ErrorCode;
use crate::errno::EINVAL;
use core::str::Utf8Error;
use vstd::prelude::*;
use vstd::utf8::{decode_utf8, valid_utf8};

verus! {

/// `core::str::Utf8Error`, the reason why bytes are not valid UTF-8.
#[verifier::external_type_specification]
#[verifier::external_body]
pub struct ExUtf8Error(Utf8Error);

/// `core::str::from_utf8` succeeds exactly on valid UTF-8, and the string it
/// returns holds the characters that the bytes encode.
pub assume_specification[ core::str::from_utf8 ](v: &[u8]) -> (r: Result<&str, Utf8Error>)
    ensures
        r is Ok <==> valid_utf8(v@),
        r is Ok ==> r->Ok_0@ == decode_utf8(v@),
;

/// Renders a `Utf8Error` with its `Display` implementation.
#[verifier::external_body]
fn utf8_error_text(error: &Utf8Error) -> String {
    format!("{error:#}")
}

/// `n` is the place of the first NUL in `bytes`.
pub open spec fn is_first_nul(bytes: Seq<u8>, n: int) -> bool {
    &&& 0 <= n < bytes.len()
    &&& bytes[n] == 0
    &&& forall|i: int| 0 <= i < n ==> bytes[i] != 0
}

/// Whether `bytes` holds a NUL.
pub open spec fn has_nul(bytes: Seq<u8>) -> bool {
    exists|n: int| 0 <= n < bytes.len() && bytes[n] == 0
}

/// The bytes before the first NUL, if there is a NUL.
pub open spec fn c_string(bytes: Seq<u8>) -> Option<Seq<u8>> {
    if exists|n: int| is_first_nul(bytes, n) {
        Some(bytes.subrange(0, choose|n: int| is_first_nul(bytes, n)))
    } else {
        None
    }
}

/// The first NUL is unique, so the bytes before it are determined.
pub proof fn lemma_first_nul_unique(bytes: Seq<u8>, n: int)
    requires
        is_first_nul(bytes, n),
    ensures
        c_string(bytes) == Some(bytes.subrange(0, n)),
{
    let m = choose|m: int| is_first_nul(bytes, m);
    assert(is_first_nul(bytes, m));
    if m < n {
        assert(bytes[m] != 0);
    }
    if n < m {
        assert(bytes[n] != 0);
    }
}

/// The path that a run of bytes stands for: the characters encoded by the
/// bytes before the first NUL, if there is a NUL and those bytes are valid
/// UTF-8.
pub open spec fn decoded_path(bytes: Seq<u8>) -> Option<Seq<char>> {
    match c_string(bytes) {
        Some(prefix) => if valid_utf8(prefix) {
            Some(decode_utf8(prefix))
        } else {
            None
        },
        None => None,
    }
}

/// The place of the first NUL in `bytes`, if there is one.
pub fn find_nul(bytes: &[u8]) -> (place: Option<usize>)
    ensures
        place matches Some(n) ==> is_first_nul(bytes@, n as int),
        place is None ==> !has_nul(bytes@),
{
    let mut i: usize = 0;
    while i < bytes.len()
        invariant
            i <= bytes.len(),
            forall|j: int| 0 <= j < i ==> bytes@[j] != 0,
        decreases bytes.len() - i,
    {
        if bytes[i] == 0 {
            return Some(i);
        }
        i += 1;
    }
    None
}

/// The start of the message of a path that is not valid UTF-8.
pub open spec fn invalid_utf8_prefix() -> Seq<char> {
    "path is not valid UTF-8: "@
}

/// The message of a path that has no end.
pub open spec fn unterminated_message() -> Seq<char> {
    "path is not NUL-terminated"@
}

/// Decodes the path that native code passed as `bytes`, the memory from the
/// path pointer on. The result is an owned copy. Fails with `EINVAL` when
/// there is no NUL or when the bytes before the first NUL are not valid
/// UTF-8; the message then names the reason.
pub fn path_from_c_ptr(bytes: &[u8]) -> (r: Result<String, (String, ErrorCode)>)
    ensures
        decoded_path(bytes@) matches Some(path) ==> r is Ok && r->Ok_0@ == path,
        decoded_path(bytes@) is None ==> r is Err && r->Err_0.1@ == EINVAL,
        r is Err && c_string(bytes@) is None ==> r->Err_0.0@ == unterminated_message(),
        r is Err && c_string(bytes@) is Some ==> invalid_utf8_prefix().is_prefix_of(r->Err_0.0@),
{
    let n: usize = match find_nul(bytes) {
        Some(n) => n,
        None => {
            assert(c_string(bytes@) is None) by {
                if exists|n: int| is_first_nul(bytes@, n) {
                    let n = choose|n: int| is_first_nul(bytes@, n);
                    assert(0 <= n < bytes@.len() && bytes@[n] == 0);
                }
            }
            return Err(
                (String::from_str("path is not NUL-terminated"), ErrorCode::invalid_argument()),
            );
        },
    };
    proof {
        lemma_first_nul_unique(bytes@, n as int);
    }
    let prefix: &[u8] = vstd::slice::slice_subrange(bytes, 0, n);
    match core::str::from_utf8(prefix) {
        Ok(path) => Ok(String::from_str(path)),
        Err(error) => {
            let mut message: String = String::from_str("path is not valid UTF-8: ");
            let detail: String = utf8_error_text(&error);
            message.append(detail.as_str());
            Err((message, ErrorCode::invalid_argument()))
        },
    }
}

} // verus!
