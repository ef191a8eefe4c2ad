//! Exact search for a byte pattern in raw file content.

use vstd::prelude::*;
use crate::error::InputError;

verus! {

/// Whether `needle` occurs in `haystack` at `offset`, byte for byte.
pub open spec fn matches_at(haystack: Seq<u8>, needle: Seq<u8>, offset: int) -> bool {
    &&& 0 <= offset
    &&& offset + needle.len() <= haystack.len()
    &&& haystack.subrange(offset, offset + needle.len()) == needle
}

/// The offsets below `bound` at which `needle` occurs, in ascending order.
pub open spec fn matches_below(haystack: Seq<u8>, needle: Seq<u8>, bound: int) -> Seq<int>
    decreases bound,
{
    if bound <= 0 {
        Seq::empty()
    } else if matches_at(haystack, needle, bound - 1) {
        matches_below(haystack, needle, bound - 1).push(bound - 1)
    } else {
        matches_below(haystack, needle, bound - 1)
    }
}

/// Every offset of `haystack` at which `needle` occurs, in ascending order.
/// Occurrences that overlap are all listed.
pub open spec fn match_offsets(haystack: Seq<u8>, needle: Seq<u8>) -> Seq<int> {
    matches_below(haystack, needle, haystack.len() as int)
}

/// A sequence of machine offsets, read as integers.
pub open spec fn as_offsets(found: Seq<u64>) -> Seq<int> {
    found.map_values(|o: u64| o as int)
}

/// The offsets below a bound are exactly the matches below it, each once,
/// in strictly ascending order.
pub proof fn lemma_matches_below(haystack: Seq<u8>, needle: Seq<u8>, bound: int)
    ensures
        forall|i: int|
            0 <= i < matches_below(haystack, needle, bound).len() ==> {
                &&& 0 <= #[trigger] matches_below(haystack, needle, bound)[i] < bound
                &&& matches_at(haystack, needle, matches_below(haystack, needle, bound)[i])
            },
        forall|i: int, j: int|
            0 <= i < j < matches_below(haystack, needle, bound).len() ==> #[trigger] matches_below(
                haystack,
                needle,
                bound,
            )[i] < #[trigger] matches_below(haystack, needle, bound)[j],
        forall|o: int|
            0 <= o < bound && #[trigger] matches_at(haystack, needle, o) ==> matches_below(
                haystack,
                needle,
                bound,
            ).contains(o),
    decreases bound,
{
    if bound > 0 {
        lemma_matches_below(haystack, needle, bound - 1);
        let before = matches_below(haystack, needle, bound - 1);
        let all = matches_below(haystack, needle, bound);
        assert forall|o: int| 0 <= o < bound && #[trigger] matches_at(haystack, needle, o)
            implies all.contains(o) by {
            if o == bound - 1 {
                assert(all[all.len() - 1] == o);
            } else {
                let k = choose|k: int| 0 <= k < before.len() && before[k] == o;
                assert(all[k] == o);
            }
        }
    }
}

/// What a search reports: strictly ascending offsets without repetition,
/// the pattern at each of them, and at no other offset of the content.
pub proof fn lemma_match_offsets_exact(haystack: Seq<u8>, needle: Seq<u8>)
    requires
        needle.len() > 0,
    ensures
        forall|i: int, j: int|
            0 <= i < j < match_offsets(haystack, needle).len() ==> #[trigger] match_offsets(
                haystack,
                needle,
            )[i] < #[trigger] match_offsets(haystack, needle)[j],
        forall|i: int|
            0 <= i < match_offsets(haystack, needle).len() ==> {
                let o = #[trigger] match_offsets(haystack, needle)[i];
                haystack.subrange(o, o + needle.len()) == needle
            },
        forall|o: int| #[trigger]
            match_offsets(haystack, needle).contains(o) <==> matches_at(haystack, needle, o),
{
    lemma_matches_below(haystack, needle, haystack.len() as int);
    let all = match_offsets(haystack, needle);
    assert forall|o: int| #[trigger] all.contains(o) <==> matches_at(haystack, needle, o) by {
        if all.contains(o) {
            let k = choose|k: int| 0 <= k < all.len() && all[k] == o;
            assert(matches_at(haystack, needle, all[k]));
        }
    }
}

/// Whether `needle` occurs in `haystack` at `offset`.
pub fn occurs_at(haystack: &[u8], needle: &[u8], offset: usize) -> (b: bool)
    ensures
        b == matches_at(haystack@, needle@, offset as int),
{
    if needle.len() > haystack.len() || offset > haystack.len() - needle.len() {
        return false;
    }
    let mut k: usize = 0;
    while k < needle.len()
        invariant
            k <= needle@.len(),
            offset + needle@.len() <= haystack@.len() <= usize::MAX,
            forall|j: int| 0 <= j < k ==> haystack@[offset + j] == needle@[j],
        decreases needle@.len() - k,
    {
        if haystack[offset + k] != needle[k] {
            assert(haystack@.subrange(offset as int, offset + needle@.len())[k as int]
                != needle@[k as int]);
            return false;
        }
        k += 1;
    }
    assert(haystack@.subrange(offset as int, offset + needle@.len()) =~= needle@);
    true
}

/// Finds every occurrence of `needle` in `haystack`.
///
/// The content is compared byte for byte, sliding one byte at a time, so
/// overlapping occurrences are all reported. An empty pattern is rejected;
/// a pattern that does not occur gives an empty list.
pub fn find_all(haystack: &[u8], needle: &[u8]) -> (r: Result<Vec<u64>, InputError>)
    ensures
        needle@.len() == 0 <==> r == Err::<Vec<u64>, InputError>(InputError::EmptyPattern),
        needle@.len() > 0 <==> r is Ok,
        r matches Ok(found) ==> {
            &&& as_offsets(found@) == match_offsets(haystack@, needle@)
            &&& forall|i: int, j: int| 0 <= i < j < found@.len() ==> found@[i] < found@[j]
            &&& forall|i: int|
                0 <= i < found@.len() ==> matches_at(haystack@, needle@, #[trigger] found@[i] as int)
            &&& forall|o: int| #[trigger]
                matches_at(haystack@, needle@, o) ==> as_offsets(found@).contains(o)
        },
{
    if needle.len() == 0 {
        return Err(InputError::EmptyPattern);
    }
    let mut found: Vec<u64> = Vec::new();
    let mut i: usize = 0;
    while i < haystack.len()
        invariant
            i <= haystack@.len(),
            as_offsets(found@) == matches_below(haystack@, needle@, i as int),
        decreases haystack@.len() - i,
    {
        if occurs_at(haystack, needle, i) {
            let ghost before = found@;
            found.push(i as u64);
            assert(as_offsets(found@) =~= as_offsets(before).push(i as int));
        }
        i += 1;
    }
    proof {
        lemma_match_offsets_exact(haystack@, needle@);
        let all = match_offsets(haystack@, needle@);
        assert forall|i: int, j: int| 0 <= i < j < found@.len() implies found@[i] < found@[j] by {
            assert(all[i] == found@[i] as int);
            assert(all[j] == found@[j] as int);
        }
        assert forall|i: int| 0 <= i < found@.len() implies matches_at(
            haystack@,
            needle@,
            #[trigger] found@[i] as int,
        ) by {
            assert(all[i] == found@[i] as int);
            assert(all.contains(all[i]));
        }
    }
    Ok(found)
}

} // verus!
