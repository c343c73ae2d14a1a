//! The error taxonomy of the key-recovery library.

use vstd::prelude::*;

verus! {

/// Everything that can go wrong between receiving the hex-encoded
/// ciphertext and handing back the parsed plaintext fields.
#[derive(Clone, Copy, Debug, PartialEq, Eq, Structural)]
pub enum AuthError {
    /// The supplied token is not valid hex (odd length or a non-hex digit).
    InvalidInputEncoding,
    /// The whole key space was tried and no candidate plaintext was accepted.
    KeyNotFound,
    /// An accepted plaintext does not split into exactly eight fields.
    MalformedPlaintext,
}

impl AuthError {
    /// A user-facing description of the error.
    pub fn message(&self) -> (s: String)
        ensures
            *self == AuthError::InvalidInputEncoding ==> s@ == "Invalid hex encoding for authinfo"@,
            *self == AuthError::KeyNotFound ==> s@ == "Could not find a possible key"@,
            *self == AuthError::MalformedPlaintext ==> s@ == "Plaintext does not split into exactly 8 fields"@,
    {
        match self {
            AuthError::InvalidInputEncoding => "Invalid hex encoding for authinfo".to_owned(),
            AuthError::KeyNotFound => "Could not find a possible key".to_owned(),
            AuthError::MalformedPlaintext => "Plaintext does not split into exactly 8 fields".to_owned(),
        }
    }
}

} // verus!
