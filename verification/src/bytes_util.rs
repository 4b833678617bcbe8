//! Byte-level helpers shared by the statement classifier and the
//! error-message scanners: ASCII predicates, substring search and
//! their first-occurrence characterizations.

use vstd::prelude::*;

verus! {

/// ASCII whitespace as the classifier understands it: space, tab,
/// line feed, carriage return.
pub open spec fn is_sp(b: u8) -> bool {
    b == 32 || b == 9 || b == 10 || b == 13
}

/// ASCII lower-casing of a single byte; bytes outside `A..=Z` pass
/// through unchanged.
pub open spec fn lo(b: u8) -> u8 {
    if 65 <= b && b <= 90 {
        (b + 32) as u8
    } else {
        b
    }
}

/// Exec counterpart of [`is_sp`].
pub fn byte_is_space(b: u8) -> (r: bool)
    ensures
        r == is_sp(b),
{
    b == 32 || b == 9 || b == 10 || b == 13
}

/// Exec counterpart of [`lo`].
pub fn lower_byte(b: u8) -> (r: u8)
    ensures
        r == lo(b),
{
    if 65 <= b && b <= 90 {
        b + 32
    } else {
        b
    }
}

/// A whole needle stands at position `i` of `h`.
pub open spec fn needle_at(h: Seq<u8>, n: Seq<u8>, i: int) -> bool {
    0 <= i && i + n.len() <= h.len() && (forall|j: int| 0 <= j < n.len() ==> h[i + j] == n[j])
}

/// Relies on memchr::memchr: the index of the first occurrence of a
/// byte in a slice, or nothing when the byte does not occur.
#[verifier::external_body]
pub(crate) fn find_byte(haystack: &[u8], needle: u8) -> (r: Option<usize>)
    ensures
        r matches Some(i) ==> {
            &&& i < haystack@.len()
            &&& haystack@[i as int] == needle
            &&& forall|k: int| 0 <= k < i ==> haystack@[k] != needle
        },
        r is None ==> forall|k: int| 0 <= k < haystack@.len() ==> haystack@[k] != needle,
{
    memchr::memchr(needle, haystack)
}

/// Relies on str's `==`: two text slices are equal exactly when
/// their character sequences are.
#[verifier::external_body]
pub(crate) fn str_eq(a: &str, b: &str) -> (r: bool)
    ensures
        r == (a@ == b@),
{
    a == b
}

/// Relies on memchr::memmem::find: the index of the first occurrence
/// of a needle in a haystack, or nothing when the needle does not
/// occur.
#[verifier::external_body]
pub(crate) fn find_needle(haystack: &[u8], needle: &[u8]) -> (r: Option<usize>)
    ensures
        r matches Some(i) ==> needle_at(haystack@, needle@, i as int) && (forall|k: int|
            0 <= k < i ==> !needle_at(haystack@, needle@, k)),
        r is None ==> forall|k: int| 0 <= k <= haystack@.len() ==> !needle_at(
            haystack@,
            needle@,
            k,
        ),
{
    memchr::memmem::find(haystack, needle)
}

/// The needle occurs somewhere in the haystack.
pub open spec fn contains_needle(h: Seq<u8>, n: Seq<u8>) -> bool {
    exists|i: int| needle_at(h, n, i)
}

/// Decides whether the needle occurs in the haystack.
pub fn slice_contains(haystack: &[u8], needle: &[u8]) -> (r: bool)
    ensures
        r == contains_needle(haystack@, needle@),
{
    let found = find_needle(haystack, needle);
    match found {
        Some(i) => {
            proof {
                assert(needle_at(haystack@, needle@, i as int));
            }
            true
        },
        None => {
            proof {
                assert forall|i: int| !needle_at(haystack@, needle@, i) by {
                    if 0 <= i <= haystack@.len() {
                        assert(!needle_at(haystack@, needle@, i));
                    }
                }
            }
            false
        },
    }
}

} // verus!
