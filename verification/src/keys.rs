//! Key derivation: from an index in the key space to a 24-byte cipher key,
//! and the rendering of an index as its zero-padded six-digit decimal form.

use vstd::prelude::*;
use vstd::string::StringExecFns;

verus! {

/// Number of candidate keys: the indices 0..=999999.
pub const KEY_SPACE_SIZE: u32 = 1000000;

/// Length in bytes of every derived cipher key.
pub const DERIVED_KEY_LEN: usize = 24;

/// The decimal digit of `i` selected by the power of ten `p`
/// (`p` is 1, 10, ..., 100000 for the six positions).
pub open spec fn dec_digit(i: int, p: int) -> int {
    (i / p) % 10
}

/// The digits 0..=9 as characters.
pub open spec fn digit_char(d: int) -> char {
    if d == 0 {
        '0'
    } else if d == 1 {
        '1'
    } else if d == 2 {
        '2'
    } else if d == 3 {
        '3'
    } else if d == 4 {
        '4'
    } else if d == 5 {
        '5'
    } else if d == 6 {
        '6'
    } else if d == 7 {
        '7'
    } else if d == 8 {
        '8'
    } else {
        '9'
    }
}

/// The six decimal digits of `i`, most significant first, zero-padded:
/// the characters of the key index rendered to width six.
pub open spec fn key_index_chars(i: int) -> Seq<char> {
    seq![
        digit_char(dec_digit(i, 100000)),
        digit_char(dec_digit(i, 10000)),
        digit_char(dec_digit(i, 1000)),
        digit_char(dec_digit(i, 100)),
        digit_char(dec_digit(i, 10)),
        digit_char(dec_digit(i, 1)),
    ]
}

/// The six decimal digits of `i` as ASCII bytes, most significant first.
pub open spec fn key_index_bytes(i: int) -> Seq<u8> {
    seq![
        (48 + dec_digit(i, 100000)) as u8,
        (48 + dec_digit(i, 10000)) as u8,
        (48 + dec_digit(i, 1000)) as u8,
        (48 + dec_digit(i, 100)) as u8,
        (48 + dec_digit(i, 10)) as u8,
        (48 + dec_digit(i, 1)) as u8,
    ]
}

/// The constant tail of every derived key: eighteen ASCII `'0'` bytes.
pub open spec fn key_suffix_bytes() -> Seq<u8> {
    Seq::new(18, |j: int| 48u8)
}

/// The 24-byte key derived from index `i`: its six zero-padded decimal
/// digits followed by eighteen ASCII `'0'` bytes.
pub open spec fn key_bytes_spec(i: int) -> Seq<u8> {
    key_index_bytes(i) + key_suffix_bytes()
}

/// Every derived key has exactly 24 bytes, its first six bytes are the
/// zero-padded decimal rendering of the index, and the remaining eighteen
/// are ASCII `'0'`.  Derivation is a spec function of the index alone,
/// hence deterministic.
pub proof fn lemma_derived_key_shape(i: int)
    ensures
        key_bytes_spec(i).len() == DERIVED_KEY_LEN,
        key_bytes_spec(i).subrange(0, 6) == key_index_bytes(i),
        forall|j: int| 6 <= j < 24 ==> key_bytes_spec(i)[j] == 48u8,
{
    assert(key_bytes_spec(i).subrange(0, 6) =~= key_index_bytes(i));
}

/// The rendered key index and the derived key agree: the six characters
/// of the rendering are exactly the first six bytes of the derived key,
/// read as ASCII.
#[verifier::rlimit(50)]
pub proof fn lemma_rendering_matches_key(i: int)
    ensures
        key_index_chars(i).len() == 6,
        forall|j: int|
            0 <= j < 6 ==> key_index_chars(i)[j] as int == key_bytes_spec(i)[j] as int,
{
    assert forall|j: int| 0 <= j < 6 implies key_index_chars(i)[j] as int == key_bytes_spec(i)[j]
        as int by {
        let p = if j == 0 {
            100000
        } else if j == 1 {
            10000
        } else if j == 2 {
            1000
        } else if j == 3 {
            100
        } else if j == 4 {
            10
        } else {
            1int
        };
        let d = dec_digit(i, p);
        assert(0 <= d < 10);
        assert(digit_char(d) as int == 48 + d);
    }
}

/// Derive the 24-byte cipher key for index `i`: the index zero-padded to
/// six decimal digits, then eighteen ASCII `'0'` bytes.
pub fn derive_key(i: u32) -> (key: Vec<u8>)
    requires
        i < KEY_SPACE_SIZE,
    ensures
        key@ == key_bytes_spec(i as int),
        key@.len() == DERIVED_KEY_LEN,
{
    let mut key: Vec<u8> = Vec::new();
    key.push(48 + ((i / 100000) % 10) as u8);
    key.push(48 + ((i / 10000) % 10) as u8);
    key.push(48 + ((i / 1000) % 10) as u8);
    key.push(48 + ((i / 100) % 10) as u8);
    key.push(48 + ((i / 10) % 10) as u8);
    key.push(48 + (i % 10) as u8);
    let mut j: usize = 0;
    while j < 18
        invariant
            key@.len() == 6 + j,
            j <= 18,
            key@.subrange(0, 6) =~= key_index_bytes(i as int),
            forall|m: int| 6 <= m < key@.len() ==> key@[m] == 48u8,
        decreases 18 - j,
    {
        key.push(48u8);
        j = j + 1;
    }
    assert(key@ =~= key_bytes_spec(i as int));
    key
}

/// Append the single decimal digit `d` to `s` as a character.
fn append_digit(s: &mut String, d: u32)
    requires
        d < 10,
    ensures
        final(s)@ == old(s)@ + seq![digit_char(d as int)],
{
    proof {
        reveal_strlit("0");
        reveal_strlit("1");
        reveal_strlit("2");
        reveal_strlit("3");
        reveal_strlit("4");
        reveal_strlit("5");
        reveal_strlit("6");
        reveal_strlit("7");
        reveal_strlit("8");
        reveal_strlit("9");
    }
    match d {
        0 => s.append("0"),
        1 => s.append("1"),
        2 => s.append("2"),
        3 => s.append("3"),
        4 => s.append("4"),
        5 => s.append("5"),
        6 => s.append("6"),
        7 => s.append("7"),
        8 => s.append("8"),
        _ => s.append("9"),
    }
    assert(s@ =~= old(s)@ + seq![digit_char(d as int)]);
}

/// Render a key index as its zero-padded six-digit decimal string,
/// e.g. 42 becomes `"000042"`.
pub fn render_key_index(i: u32) -> (s: String)
    requires
        i < KEY_SPACE_SIZE,
    ensures
        s@ == key_index_chars(i as int),
{
    let mut s = String::new();
    append_digit(&mut s, (i / 100000) % 10);
    append_digit(&mut s, (i / 10000) % 10);
    append_digit(&mut s, (i / 1000) % 10);
    append_digit(&mut s, (i / 100) % 10);
    append_digit(&mut s, (i / 10) % 10);
    append_digit(&mut s, i % 10);
    assert(s@ =~= key_index_chars(i as int));
    s
}

} // verus!
