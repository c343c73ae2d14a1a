//! The search orchestrator: one linear pass over the key space in
//! ascending order, stopping at the first index whose candidate plaintext
//! is accepted by the validator.

use crate::errors::AuthError;
use crate::hexcodec::hex_decode;
use crate::hexcodec::hex_decode_spec;
use crate::hexcodec::valid_hex;
use crate::keys::derive_key;
use crate::keys::key_bytes_spec;
use crate::keys::key_index_chars;
use crate::keys::render_key_index;
use crate::keys::KEY_SPACE_SIZE;
use crate::oracle::decode_lossy;
use crate::oracle::des_ede3_plaintext;
use crate::oracle::lossy_text;
use crate::oracle::try_decrypt;
use crate::validator::contains_marker;
use crate::validator::validate_plaintext;
use vstd::prelude::*;

verus! {

/// Length in bytes of the fixed all-zero initialization vector.
pub const IV_LEN: usize = 8;

/// The fixed initialization vector: eight zero bytes.
pub open spec fn zero_iv() -> Seq<u8> {
    Seq::new(IV_LEN as nat, |j: int| 0u8)
}

/// Whether trial index `i` is accepted for ciphertext `ct`: decryption
/// under the key derived from `i` succeeds, and the permissively decoded
/// candidate plaintext contains the marker.
pub open spec fn accepts(ct: Seq<u8>, i: int) -> bool {
    match des_ede3_plaintext(key_bytes_spec(i), zero_iv(), ct) {
        Some(p) => contains_marker(lossy_text(p)),
        None => false,
    }
}

/// The decoded text of the candidate plaintext at index `i`
/// (meaningful only when `accepts(ct, i)` holds).
pub open spec fn accepted_text(ct: Seq<u8>, i: int) -> Seq<char> {
    match des_ede3_plaintext(key_bytes_spec(i), zero_iv(), ct) {
        Some(p) => lossy_text(p),
        None => Seq::empty(),
    }
}

/// Whether `i` is the index the search must report for `ct`: it is
/// accepted, and no smaller index in the key space is.
pub open spec fn found_at(ct: Seq<u8>, i: int) -> bool {
    &&& 0 <= i < KEY_SPACE_SIZE
    &&& accepts(ct, i)
    &&& forall|j: int| 0 <= j < i ==> !accepts(ct, j)
}

/// Ascending-order guarantee: if two distinct indices both yield accepted
/// plaintext for the same ciphertext, the search outcome is at most the
/// smaller of the two.
pub proof fn lemma_search_returns_smallest(ct: Seq<u8>, k: int, k1: int, k2: int)
    requires
        found_at(ct, k),
        0 <= k1 < k2 < KEY_SPACE_SIZE,
        accepts(ct, k1),
        accepts(ct, k2),
    ensures
        k <= k1,
{
}

/// Build the fixed initialization vector: eight zero bytes.
fn make_zero_iv() -> (iv: Vec<u8>)
    ensures
        iv@ == zero_iv(),
{
    let mut iv: Vec<u8> = Vec::new();
    let mut j: usize = 0;
    while j < IV_LEN
        invariant
            j <= IV_LEN,
            iv@.len() == j,
            forall|m: int| 0 <= m < j ==> iv@[m] == 0u8,
        decreases IV_LEN - j,
    {
        iv.push(0u8);
        j = j + 1;
    }
    assert(iv@ =~= zero_iv());
    iv
}

/// Try every index of the key space in ascending order against the
/// decryption oracle and the validator; report the first accepted index
/// together with its decoded plaintext, or `KeyNotFound` after the whole
/// space is exhausted.  The ciphertext must fit the cipher backend's
/// 32-bit length limit, a block of output slack included.
pub fn search_key_space(ciphertext: &Vec<u8>) -> (r: Result<(u32, String), AuthError>)
    requires
        ciphertext@.len() + 8 <= 2147483647,
    ensures
        match r {
            Ok(found) => found_at(ciphertext@, found.0 as int) && found.1@ == accepted_text(
                ciphertext@,
                found.0 as int,
            ),
            Err(e) => e == AuthError::KeyNotFound && forall|j: int|
                0 <= j < KEY_SPACE_SIZE ==> !accepts(ciphertext@, j),
        },
        (r is Ok) <==> exists|k: int| 0 <= k < KEY_SPACE_SIZE && accepts(ciphertext@, k),
{
    let iv = make_zero_iv();
    let mut i: u32 = 0;
    while i < KEY_SPACE_SIZE
        invariant
            iv@ == zero_iv(),
            ciphertext@.len() + 8 <= 2147483647,
            i <= KEY_SPACE_SIZE,
            forall|j: int| 0 <= j < i ==> !accepts(ciphertext@, j),
        decreases KEY_SPACE_SIZE - i,
    {
        let key = derive_key(i);
        match try_decrypt(&key, &iv, ciphertext) {
            Some(candidate) => {
                let text = decode_lossy(&candidate);
                if validate_plaintext(text.as_str()) {
                    assert(accepts(ciphertext@, i as int));
                    return Ok((i, text));
                }
                assert(!accepts(ciphertext@, i as int));
            },
            None => {
                assert(!accepts(ciphertext@, i as int));
            },
        }
        i = i + 1;
    }
    Err(AuthError::KeyNotFound)
}

/// Decode the hex-encoded ciphertext token and run the key-space search.
/// On success the result pairs the winning index, rendered as its
/// zero-padded six-digit decimal string, with the decoded plaintext.
/// The token must be short enough that the ciphertext it encodes (half
/// its length) fits the cipher backend's 32-bit length limit.
pub fn decrypt_authinfo(authinfo_raw: &str) -> (r: Result<(String, String), AuthError>)
    requires
        authinfo_raw@.len() / 2 + 8 <= 2147483647,
    ensures
        ({
            let ct = hex_decode_spec(authinfo_raw@);
            match r {
                Ok(found) => valid_hex(authinfo_raw@) && exists|k: int|
                    #[trigger] found_at(ct, k) && found.0@ == key_index_chars(k) && found.1@
                        == accepted_text(ct, k),
                Err(e) => match e {
                    AuthError::InvalidInputEncoding => !valid_hex(authinfo_raw@),
                    AuthError::KeyNotFound => valid_hex(authinfo_raw@) && forall|j: int|
                        0 <= j < KEY_SPACE_SIZE ==> !accepts(ct, j),
                    AuthError::MalformedPlaintext => false,
                },
            }
        }),
        (r is Ok) <==> (valid_hex(authinfo_raw@) && exists|k: int|
            0 <= k < KEY_SPACE_SIZE && accepts(hex_decode_spec(authinfo_raw@), k)),
{
    match hex_decode(authinfo_raw) {
        None => Err(AuthError::InvalidInputEncoding),
        Some(ciphertext) => match search_key_space(&ciphertext) {
            Ok(found) => {
                let key = render_key_index(found.0);
                Ok((key, found.1))
            },
            Err(e) => Err(e),
        },
    }
}

} // verus!
