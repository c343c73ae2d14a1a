//! The plaintext validator: a candidate plaintext is accepted when its
//! permissively decoded text contains the marker `"OTT"`.

use vstd::prelude::*;
use vstd::string::StrSliceExecFns;

verus! {

/// Whether the marker `OTT` stands in `s` at position `i`.
pub open spec fn marker_at(s: Seq<char>, i: int) -> bool {
    0 <= i && i + 3 <= s.len() && s[i] == 'O' && s[i + 1] == 'T' && s[i + 2] == 'T'
}

/// Whether the text `s` contains the marker `OTT`.
pub open spec fn contains_marker(s: Seq<char>) -> bool {
    exists|i: int| marker_at(s, i)
}

/// Decide whether the candidate plaintext text contains the marker `"OTT"`.
/// This is the cheap acceptance heuristic of the search: it proves nothing
/// about the plaintext beyond the presence of the marker.
pub fn validate_plaintext(s: &str) -> (accepted: bool)
    ensures
        accepted == contains_marker(s@),
{
    let n = s.unicode_len();
    if n < 3 {
        return false;
    }
    let mut j: usize = 0;
    while j <= n - 3
        invariant
            n == s@.len(),
            3 <= n,
            j <= n - 2,
            forall|i: int| 0 <= i < j ==> !marker_at(s@, i),
        decreases n - j,
    {
        if s.get_char(j) == 'O' && s.get_char(j + 1) == 'T' && s.get_char(j + 2) == 'T' {
            assert(marker_at(s@, j as int));
            return true;
        }
        j = j + 1;
    }
    assert forall|i: int| !marker_at(s@, i) by {
        if 0 <= i && i + 3 <= s@.len() {
            assert(i < j);
        }
    }
    false
}

} // verus!
