//! Encoding labels and their comparison without regard to ASCII case.

use vstd::prelude::*;
use vstd::std_specs::iter::IteratorSpec;
use vstd::string::*;

verus! {

/// The code point of `c` with the ASCII capitals mapped onto the small letters.
pub open spec fn ascii_fold(c: char) -> u32 {
    if 'A' <= c && c <= 'Z' {
        (c as u32 + 32) as u32
    } else {
        c as u32
    }
}

/// Two texts agree but for the case of their ASCII letters.
pub open spec fn eq_ignoring_ascii_case(a: Seq<char>, b: Seq<char>) -> bool {
    &&& a.len() == b.len()
    &&& forall|i: int| 0 <= i < a.len() ==> ascii_fold(#[trigger] a[i]) == ascii_fold(b[i])
}

/// The label of the encoding that every file is brought to.
pub open spec fn canonical_label() -> Seq<char> {
    seq!['U', 'T', 'F', '-', '8']
}

/// The label names the canonical encoding, in whatever case it is written.
pub open spec fn is_canonical(label: Seq<char>) -> bool {
    eq_ignoring_ascii_case(label, canonical_label())
}

/// The label of the encoding that every file is brought to.
pub const CANONICAL_LABEL: &'static str = "UTF-8";

fn fold(c: char) -> (code: u32)
    ensures
        code == ascii_fold(c),
{
    let code: u32 = c as u32;
    if 65 <= code && code <= 90 {
        code + 32
    } else {
        code
    }
}

/// Compares two texts without regard to the case of ASCII letters.
pub fn eq_ignore_ascii_case(a: &str, b: &str) -> (same: bool)
    ensures
        same == eq_ignoring_ascii_case(a@, b@),
{
    broadcast use group_string_axioms;

    let mut left = a.chars();
    let mut right = b.chars();
    let ghost mut seen: int = 0;
    loop
        invariant
            0 <= seen <= a@.len(),
            seen <= b@.len(),
            left.obeys_prophetic_iter_laws(),
            right.obeys_prophetic_iter_laws(),
            left.remaining() == a@.skip(seen),
            right.remaining() == b@.skip(seen),
            forall|k: int| 0 <= k < seen ==> ascii_fold(#[trigger] a@[k]) == ascii_fold(b@[k]),
        decreases a@.len() - seen,
    {
        match left.next() {
            None => {
                return right.next().is_none();
            },
            Some(x) => match right.next() {
                None => {
                    return false;
                },
                Some(y) => {
                    if fold(x) != fold(y) {
                        return false;
                    }
                },
            },
        }
        proof {
            assert(a@.skip(seen).drop_first() =~= a@.skip(seen + 1));
            assert(b@.skip(seen).drop_first() =~= b@.skip(seen + 1));
            seen = seen + 1;
        }
    }
}

/// Tells whether a label names the canonical encoding.
pub fn is_utf8_label(label: &str) -> (canonical: bool)
    ensures
        canonical == is_canonical(label@),
{
    proof {
        reveal_strlit("UTF-8");
        assert("UTF-8"@ =~= canonical_label());
    }
    eq_ignore_ascii_case(label, CANONICAL_LABEL)
}

} // verus!
