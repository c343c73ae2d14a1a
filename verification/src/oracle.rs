//! The decryption oracle: a trusted wrapper around Triple-DES (EDE3)
//! decryption from the `openssl` crate, and the permissive text decoding
//! of candidate plaintext.

use vstd::prelude::*;

verus! {

/// What Triple-DES (EDE3) decryption with padding, as `openssl` configures
/// it, yields for a key, an initialization vector and a ciphertext:
/// `Some` candidate plaintext, or `None` where the ciphertext length or the
/// padding does not fit the key.  The transform is a pure function of its
/// three arguments.
pub uninterp spec fn des_ede3_plaintext(key: Seq<u8>, iv: Seq<u8>, data: Seq<u8>) -> Option<
    Seq<u8>,
>;

/// What the permissive UTF-8 decoding of a byte sequence reads: invalid
/// sequences are replaced, so decoding never fails, and the result depends
/// on the bytes alone.
pub uninterp spec fn lossy_text(b: Seq<u8>) -> Seq<char>;

/// Relies on `openssl::symm::decrypt` with `Cipher::des_ede3()`: a pure,
/// deterministic transform of (key, iv, data) that either yields the
/// candidate plaintext or fails for this key.  With an IV supplied and the
/// data within the backend's 32-bit length limit (it converts the input
/// length, plus a block of output slack, to a C `int` and aborts past
/// `i32::MAX`) the call returns a `Result` and does not panic.
#[verifier::external_body]
pub(crate) fn try_decrypt(key: &Vec<u8>, iv: &Vec<u8>, data: &Vec<u8>) -> (r: Option<Vec<u8>>)
    requires
        key@.len() == 24,
        iv@.len() == 8,
        data@.len() + 8 <= 2147483647,
    ensures
        match r {
            Some(p) => des_ede3_plaintext(key@, iv@, data@) == Some(p@),
            None => des_ede3_plaintext(key@, iv@, data@) is None,
        },
{
    openssl::symm::decrypt(openssl::symm::Cipher::des_ede3(), key, Some(iv), data).ok()
}

/// Relies on `String::from_utf8_lossy`: decoding is total (invalid byte
/// sequences are replaced, never rejected) and depends on the bytes alone.
#[verifier::external_body]
pub(crate) fn decode_lossy(b: &Vec<u8>) -> (s: String)
    ensures
        s@ == lossy_text(b@),
{
    String::from_utf8_lossy(b).into_owned()
}

} // verus!
