//! Parsing of an accepted plaintext into its eight `$`-delimited fields.

use crate::errors::AuthError;
use vstd::prelude::*;
use vstd::string::StrSliceExecFns;

verus! {

/// Number of fields an accepted plaintext must split into.
pub const FIELD_COUNT: usize = 8;

/// The pieces of `s` split on the separator `sep`, separators removed and
/// empty pieces kept: splitting the empty text yields one empty piece, as
/// `str::split` does.
pub open spec fn split_on(s: Seq<char>, sep: char) -> Seq<Seq<char>>
    decreases s.len(),
{
    if s.len() == 0 {
        seq![Seq::<char>::empty()]
    } else if s[0] == sep {
        seq![Seq::<char>::empty()] + split_on(s.subrange(1, s.len() as int), sep)
    } else {
        let rest = split_on(s.subrange(1, s.len() as int), sep);
        seq![seq![s[0]] + rest[0]] + rest.subrange(1, rest.len() as int)
    }
}

/// Splitting always yields at least one piece.
pub proof fn lemma_split_nonempty(s: Seq<char>, sep: char)
    ensures
        split_on(s, sep).len() >= 1,
    decreases s.len(),
{
    if s.len() == 0 {
    } else if s[0] == sep {
    } else {
        lemma_split_nonempty(s.subrange(1, s.len() as int), sep);
    }
}

/// Scanning step: if no separator stands in `s` before position `k`, the
/// first piece of the split runs up to `k`.  At `k == s.len()` the whole
/// text is the single piece; at a separator the split is the prefix piece
/// followed by the split of what stands after the separator.
pub proof fn lemma_split_scan(s: Seq<char>, sep: char, k: int)
    requires
        0 <= k <= s.len(),
        forall|m: int| 0 <= m < k ==> s[m] != sep,
    ensures
        k == s.len() ==> split_on(s, sep) =~~= seq![s],
        k < s.len() && s[k] == sep ==> split_on(s, sep) =~~= seq![s.subrange(0, k)] + split_on(
            s.subrange(k + 1, s.len() as int),
            sep,
        ),
    decreases k,
{
    if k == 0 {
        if k == s.len() {
            assert(s =~= Seq::<char>::empty());
        } else if s[0] == sep {
            assert(s.subrange(0, 0) =~= Seq::<char>::empty());
            assert(s.subrange(1, s.len() as int) =~= s.subrange(k + 1, s.len() as int));
        }
    } else {
        let s1 = s.subrange(1, s.len() as int);
        assert(s[0] != sep);
        assert forall|m: int| 0 <= m < k - 1 implies s1[m] != sep by {
            assert(s1[m] == s[m + 1]);
        }
        lemma_split_scan(s1, sep, k - 1);
        let rest = split_on(s1, sep);
        lemma_split_nonempty(s1, sep);
        if k == s.len() {
            assert(rest =~~= seq![s1]);
            assert(seq![s[0]] + rest[0] =~= s);
            assert(rest.subrange(1, rest.len() as int) =~= Seq::<Seq<char>>::empty());
            assert(split_on(s, sep) =~~= seq![s]);
        } else if s[k] == sep {
            assert(s1[k - 1] == s[k]);
            assert(rest =~~= seq![s1.subrange(0, k - 1)] + split_on(
                s1.subrange(k, s1.len() as int),
                sep,
            ));
            assert(s1.subrange(0, k - 1) =~= s.subrange(1, k));
            assert(s1.subrange(k, s1.len() as int) =~= s.subrange(k + 1, s.len() as int));
            assert(seq![s[0]] + rest[0] =~= s.subrange(0, k));
            assert(rest.subrange(1, rest.len() as int) =~~= split_on(
                s.subrange(k + 1, s.len() as int),
                sep,
            ));
            assert(split_on(s, sep) =~~= seq![s.subrange(0, k)] + split_on(
                s.subrange(k + 1, s.len() as int),
                sep,
            ));
        }
    }
}

/// The texts of a sequence of owned strings.
pub open spec fn views_of(v: Seq<String>) -> Seq<Seq<char>> {
    v.map_values(|x: String| x@)
}

/// Split an accepted plaintext on `$` into its eight fields, in order.
/// Any other number of pieces is a malformed plaintext.
pub fn split_fields(s: &str) -> (r: Result<Vec<String>, AuthError>)
    ensures
        match r {
            Ok(fields) => {
                &&& split_on(s@, '$').len() == FIELD_COUNT
                &&& fields@.len() == FIELD_COUNT
                &&& forall|k: int| 0 <= k < FIELD_COUNT ==> fields@[k]@ == split_on(s@, '$')[k]
            },
            Err(e) => e == AuthError::MalformedPlaintext && split_on(s@, '$').len() != FIELD_COUNT,
        },
{
    let n = s.unicode_len();
    let mut fields: Vec<String> = Vec::new();
    let mut start: usize = 0;
    let mut j: usize = 0;
    proof {
        assert(views_of(fields@) =~~= Seq::<Seq<char>>::empty());
        assert(s@.subrange(0, n as int) =~= s@);
    }
    while j < n
        invariant
            n == s@.len(),
            start <= j <= n,
            forall|m: int| start <= m < j ==> s@[m] != '$',
            split_on(s@, '$') =~~= views_of(fields@) + split_on(
                s@.subrange(start as int, n as int),
                '$',
            ),
        decreases n - j,
    {
        if s.get_char(j) == '$' {
            let ghost suffix = s@.subrange(start as int, n as int);
            proof {
                assert forall|m: int| 0 <= m < j - start implies suffix[m] != '$' by {
                    assert(suffix[m] == s@[start + m]);
                }
                lemma_split_scan(suffix, '$', j - start);
                assert(suffix[j - start] == s@[j as int]);
                assert(suffix.subrange(0, j - start) =~= s@.subrange(start as int, j as int));
                assert(suffix.subrange(j - start + 1, suffix.len() as int) =~= s@.subrange(
                    j + 1,
                    n as int,
                ));
            }
            let piece = s.substring_char(start, j).to_owned();
            fields.push(piece);
            proof {
                assert(views_of(fields@) =~~= views_of(fields@.subrange(0, fields@.len() - 1))
                    + seq![s@.subrange(start as int, j as int)]);
                assert(split_on(s@, '$') =~~= views_of(fields@) + split_on(
                    s@.subrange(j + 1, n as int),
                    '$',
                ));
            }
            start = j + 1;
        }
        j = j + 1;
    }
    let ghost suffix = s@.subrange(start as int, n as int);
    proof {
        assert forall|m: int| 0 <= m < n - start implies suffix[m] != '$' by {
            assert(suffix[m] == s@[start + m]);
        }
        lemma_split_scan(suffix, '$', n - start);
    }
    let piece = s.substring_char(start, n).to_owned();
    fields.push(piece);
    proof {
        assert(views_of(fields@) =~~= views_of(fields@.subrange(0, fields@.len() - 1)) + seq![
            suffix,
        ]);
        assert(split_on(s@, '$') =~~= views_of(fields@));
    }
    if fields.len() == FIELD_COUNT {
        Ok(fields)
    } else {
        Err(AuthError::MalformedPlaintext)
    }
}

} // verus!
