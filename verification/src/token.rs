//! Scanning a byte string for the first space, the separator of the textual
//! request grammar.

use vstd::prelude::*;

verus! {

/// The ASCII space byte that separates the fields of a request.
pub const SPACE: u8 = 32;

/// Index of the first space in `s`, or -1 when `s` holds none.
pub open spec fn first_space(s: Seq<u8>) -> int
    decreases s.len(),
{
    if s.len() == 0 {
        -1
    } else if s[0] == SPACE {
        0
    } else if first_space(s.skip(1)) < 0 {
        -1
    } else {
        first_space(s.skip(1)) + 1
    }
}

/// A space at `i` with none before it pins `first_space` down to `i`.
pub proof fn lemma_first_space_at(s: Seq<u8>, i: int)
    requires
        0 <= i < s.len(),
        s[i] == SPACE,
        forall|j: int| 0 <= j < i ==> s[j] != SPACE,
    ensures
        first_space(s) == i,
    decreases i,
{
    if i == 0 {
    } else {
        assert(forall|j: int| 0 <= j < s.skip(1).len() ==> s.skip(1)[j] == s[j + 1]);
        lemma_first_space_at(s.skip(1), i - 1);
    }
}

/// A byte string without a space has `first_space` -1.
pub proof fn lemma_first_space_none(s: Seq<u8>)
    requires
        forall|j: int| 0 <= j < s.len() ==> s[j] != SPACE,
    ensures
        first_space(s) == -1,
    decreases s.len(),
{
    if s.len() == 0 {
    } else {
        assert(forall|j: int| 0 <= j < s.skip(1).len() ==> s.skip(1)[j] == s[j + 1]);
        lemma_first_space_none(s.skip(1));
    }
}

/// Finds the first space in `s`, if any.
pub fn find_space(s: &[u8]) -> (r: Option<usize>)
    ensures
        match r {
            Some(i) => first_space(s@) == i && i < s@.len(),
            None => first_space(s@) == -1,
        },
{
    let mut i: usize = 0;
    while i < s.len()
        invariant
            i <= s@.len(),
            forall|j: int| 0 <= j < i ==> s@[j] != SPACE,
        decreases s@.len() - i,
    {
        if s[i] == SPACE {
            proof {
                lemma_first_space_at(s@, i as int);
            }
            return Some(i);
        }
        i = i + 1;
    }
    proof {
        lemma_first_space_none(s@);
    }
    None
}

/// Byte-wise equality of two slices.
pub fn bytes_eq(a: &[u8], b: &[u8]) -> (r: bool)
    ensures
        r == (a@ == b@),
{
    if a.len() != b.len() {
        return false;
    }
    let mut i: usize = 0;
    while i < a.len()
        invariant
            i <= a@.len(),
            a@.len() == b@.len(),
            forall|j: int| 0 <= j < i ==> a@[j] == b@[j],
        decreases a@.len() - i,
    {
        if a[i] != b[i] {
            return false;
        }
        i = i + 1;
    }
    proof {
        assert(a@ =~= b@);
    }
    true
}

} // verus!
