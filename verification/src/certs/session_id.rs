//! The identifier of a client session.

use vstd::prelude::*;
use vstd::utf8::encode_utf8;
use crate::errors::{ConstraintError, ConstraintErrorView};
use crate::text::{decimal, decimal_string};

verus! {

/// The least length of a session identifier, in bytes.
pub const SESSION_ID_MIN_LEN: usize = 1;

/// The greatest length of a session identifier, in bytes.
pub const SESSION_ID_MAX_LEN: usize = 32;

/// The length in bytes of the UTF-8 encoding of `text`.
pub open spec fn byte_len(text: Seq<char>) -> nat {
    encode_utf8(text).len()
}

/// Whether a text of `len` bytes may serve as a session identifier.
pub open spec fn session_id_len_ok(len: nat) -> bool {
    SESSION_ID_MIN_LEN <= len <= SESSION_ID_MAX_LEN
}

/// Whether `text` may serve as a session identifier: between 1 and 32 bytes.
pub open spec fn session_id_ok(text: Seq<char>) -> bool {
    session_id_len_ok(byte_len(text))
}

/// The error that reports a session identifier of `len` bytes.
pub open spec fn session_id_error(len: nat) -> ConstraintErrorView {
    ConstraintErrorView::OutOfBounds {
        lower: 1,
        upper: 32,
        actual: decimal(len),
        reason: Some("SessionId too long"@),
    }
}

/// What validating `text` as a session identifier yields.
pub open spec fn session_id_verdict(text: Seq<char>) -> Result<(), ConstraintErrorView> {
    if session_id_ok(text) {
        Ok(())
    } else {
        Err(session_id_error(byte_len(text)))
    }
}

/// A session identifier: a string of 1 to 32 bytes. No two valid certificates
/// of one actor carry the same one; the issuing authority sees to that.
#[derive(Debug, PartialEq, Eq, PartialOrd, Ord, Hash)]
pub struct SessionId {
    session_id: String,
}

impl View for SessionId {
    type V = Seq<char>;

    closed spec fn view(&self) -> Seq<char> {
        self.session_id@
    }
}

impl SessionId {
    /// Every session identifier has a valid length.
    #[verifier::type_invariant]
    closed spec fn well_formed(self) -> bool {
        session_id_ok(self.session_id@)
    }

    /// Checks the length of `id` and wraps it unchanged.
    pub fn new_validated(id: String) -> (r: Result<SessionId, ConstraintError>)
        ensures
            r is Ok <==> session_id_ok(id@),
            r matches Ok(s) ==> s@ == id@,
            r matches Err(e) ==> e@ == session_id_error(byte_len(id@)),
    {
        let len = id.as_str().as_bytes().len();
        if len > SESSION_ID_MAX_LEN || len < SESSION_ID_MIN_LEN {
            return Err(
                ConstraintError::out_of_bounds(
                    1,
                    32,
                    decimal_string(len as u128),
                    "SessionId too long",
                ),
            );
        }
        Ok(SessionId { session_id: id })
    }

    /// The identifier as text.
    pub fn as_str(&self) -> (s: &str)
        ensures
            s@ == self@,
            session_id_ok(s@),
    {
        proof {
            use_type_invariant(self);
        }
        self.session_id.as_str()
    }

    /// The length of the identifier in bytes.
    pub fn len(&self) -> (n: usize)
        ensures
            n == byte_len(self@),
            1 <= n <= 32,
    {
        proof {
            use_type_invariant(self);
        }
        self.session_id.as_str().as_bytes().len()
    }
}

impl Clone for SessionId {
    fn clone(&self) -> (r: Self)
        ensures
            r@ == self@,
    {
        proof {
            use_type_invariant(self);
        }
        SessionId { session_id: self.session_id.clone() }
    }
}

} // verus!
