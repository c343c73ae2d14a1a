//! The hex decoding of the input token: an exact specification and a
//! trusted wrapper around the `hex` crate.

use vstd::prelude::*;

verus! {

/// Whether `c` is a hex digit: `0`-`9`, `a`-`f` or `A`-`F`.
pub open spec fn is_hex_digit(c: char) -> bool {
    (48 <= c as int && c as int <= 57) || (97 <= c as int && c as int <= 102) || (65 <= c as int
        && c as int <= 70)
}

/// The value 0..=15 of the hex digit `c`.
pub open spec fn hex_digit_val(c: char) -> int {
    if 48 <= c as int && c as int <= 57 {
        c as int - 48
    } else if 97 <= c as int && c as int <= 102 {
        c as int - 87
    } else {
        c as int - 55
    }
}

/// Whether `s` is a well-formed hex string: even length, hex digits only.
pub open spec fn valid_hex(s: Seq<char>) -> bool {
    s.len() % 2 == 0 && (forall|i: int| 0 <= i < s.len() ==> is_hex_digit(s[i]))
}

/// The bytes encoded by the well-formed hex string `s`: one byte for each
/// pair of digits, high digit first.
pub open spec fn hex_decode_spec(s: Seq<char>) -> Seq<u8> {
    Seq::new(
        (s.len() / 2) as nat,
        |k: int| (16 * hex_digit_val(s[2 * k]) + hex_digit_val(s[2 * k + 1])) as u8,
    )
}

/// Relies on `hex::decode`: it succeeds exactly on strings of even length
/// made of hex digits, and then returns one byte per digit pair, high
/// digit first.
#[verifier::external_body]
pub(crate) fn hex_decode(s: &str) -> (r: Option<Vec<u8>>)
    ensures
        r is Some <==> valid_hex(s@),
        r matches Some(v) ==> v@ == hex_decode_spec(s@),
{
    hex::decode(s).ok()
}

} // verus!
