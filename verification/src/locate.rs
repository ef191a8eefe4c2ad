//! From a file offset to every range that contains it.

use vstd::prelude::*;
use crate::range::{Range, RangeView};

verus! {

/// A range that contains a queried offset, with the place of the range in
/// the layout and the virtual address that the offset maps to within it.
#[derive(Debug, PartialEq, Eq)]
pub struct Located {
    pub range: Range,
    pub position: usize,
    pub address: Option<u64>,
}

/// The mathematical value of a [`Located`].
pub struct LocatedView {
    pub range: RangeView,
    pub position: int,
    pub address: Option<u64>,
}

impl View for Located {
    type V = LocatedView;

    open spec fn view(&self) -> LocatedView {
        LocatedView { range: self.range@, position: self.position as int, address: self.address }
    }
}

/// The ranges of one file, in the order in which its tables list them.
#[derive(Debug, PartialEq, Eq)]
pub struct Layout {
    pub ranges: Vec<Range>,
}

/// The values of a sequence of ranges.
pub open spec fn range_views(ranges: Seq<Range>) -> Seq<RangeView> {
    ranges.map_values(|r: Range| r@)
}

/// The values of a sequence of located ranges.
pub open spec fn located_views(found: Seq<Located>) -> Seq<LocatedView> {
    found.map_values(|l: Located| l@)
}

impl View for Layout {
    type V = Seq<RangeView>;

    open spec fn view(&self) -> Seq<RangeView> {
        range_views(self.ranges@)
    }
}

/// The entry that a containing range contributes to an answer.
pub open spec fn located_at(ranges: Seq<RangeView>, offset: u64, position: int) -> LocatedView {
    LocatedView {
        range: ranges[position],
        position,
        address: ranges[position].address_of(offset),
    }
}

/// The ranges among the first `bound` that contain `offset`, in layout order.
pub open spec fn located_below(ranges: Seq<RangeView>, offset: u64, bound: int) -> Seq<
    LocatedView,
>
    decreases bound,
{
    if bound <= 0 {
        Seq::empty()
    } else if ranges[bound - 1].contains(offset) {
        located_below(ranges, offset, bound - 1).push(located_at(ranges, offset, bound - 1))
    } else {
        located_below(ranges, offset, bound - 1)
    }
}

/// Every range that contains `offset`, in layout order, each with the
/// address of `offset` within it.
pub open spec fn located(ranges: Seq<RangeView>, offset: u64) -> Seq<LocatedView> {
    located_below(ranges, offset, ranges.len() as int)
}

/// The entries found among the first `bound` ranges are the containing
/// ranges among them, each once and in layout order.
pub proof fn lemma_located_below(ranges: Seq<RangeView>, offset: u64, bound: int)
    requires
        bound <= ranges.len(),
    ensures
        forall|k: int|
            0 <= k < located_below(ranges, offset, bound).len() ==> {
                let e = #[trigger] located_below(ranges, offset, bound)[k];
                &&& 0 <= e.position < bound
                &&& e == located_at(ranges, offset, e.position)
                &&& ranges[e.position].contains(offset)
            },
        forall|j: int, k: int|
            0 <= j < k < located_below(ranges, offset, bound).len() ==> (#[trigger] located_below(
                ranges,
                offset,
                bound,
            )[j]).position < (#[trigger] located_below(ranges, offset, bound)[k]).position,
        forall|i: int|
            0 <= i < bound && (#[trigger] ranges[i]).contains(offset) ==> located_below(
                ranges,
                offset,
                bound,
            ).contains(located_at(ranges, offset, i)),
    decreases bound,
{
    if bound > 0 {
        lemma_located_below(ranges, offset, bound - 1);
        let before = located_below(ranges, offset, bound - 1);
        let all = located_below(ranges, offset, bound);
        assert forall|i: int| 0 <= i < bound && (#[trigger] ranges[i]).contains(offset)
            implies all.contains(located_at(ranges, offset, i)) by {
            if i == bound - 1 {
                assert(all[all.len() - 1] == located_at(ranges, offset, i));
            } else {
                let e = located_at(ranges, offset, i);
                let k = choose|k: int| 0 <= k < before.len() && before[k] == e;
                assert(all[k] == e);
            }
        }
    }
}

/// A range is reported for an offset exactly when its half-open interval
/// contains the offset. Each reported range carries its place in the layout
/// and the address of the offset within it, the places ascend, and no empty
/// range is ever reported.
pub proof fn lemma_located_exact(ranges: Seq<RangeView>, offset: u64)
    ensures
        forall|i: int|
            0 <= i < ranges.len() ==> (located(ranges, offset).contains(
                #[trigger] located_at(ranges, offset, i),
            ) <==> ranges[i].file_offset <= offset < ranges[i].file_offset + ranges[i].file_size),
        forall|k: int|
            0 <= k < located(ranges, offset).len() ==> {
                let e = #[trigger] located(ranges, offset)[k];
                &&& 0 <= e.position < ranges.len()
                &&& e == located_at(ranges, offset, e.position)
                &&& e.range.contains(offset)
                &&& e.range.file_size > 0
            },
        forall|j: int, k: int|
            0 <= j < k < located(ranges, offset).len() ==> (#[trigger] located(
                ranges,
                offset,
            )[j]).position < (#[trigger] located(ranges, offset)[k]).position,
{
    lemma_located_below(ranges, offset, ranges.len() as int);
    let all = located(ranges, offset);
    assert forall|i: int| 0 <= i < ranges.len() implies (all.contains(
        #[trigger] located_at(ranges, offset, i),
    ) <==> ranges[i].contains(offset)) by {
        let e = located_at(ranges, offset, i);
        if all.contains(e) {
            let k = choose|k: int| 0 <= k < all.len() && all[k] == e;
            assert(all[k].position == i);
        }
    }
}

impl Layout {
    /// A layout of the given ranges, in their order.
    pub fn new(ranges: Vec<Range>) -> (layout: Layout)
        ensures
            layout.ranges == ranges,
    {
        Layout { ranges }
    }

    /// The layout of a file of which no range is known.
    pub fn empty() -> (layout: Layout)
        ensures
            layout@ == Seq::<RangeView>::empty(),
    {
        let layout = Layout { ranges: Vec::new() };
        assert(layout@ =~= Seq::<RangeView>::empty());
        layout
    }

    /// The number of ranges.
    pub fn len(&self) -> (n: usize)
        ensures
            n == self@.len(),
    {
        self.ranges.len()
    }

    /// Every range that contains `offset`, in layout order: all of them, not
    /// only the innermost, each with the address that `offset` maps to.
    pub fn ranges_containing(&self, offset: u64) -> (found: Vec<Located>)
        ensures
            located_views(found@) == located(self@, offset),
            forall|i: int|
                0 <= i < self@.len() ==> (self@[i].contains(offset) <==> exists|k: int|
                    0 <= k < found@.len() && (#[trigger] found@[k]).position == i),
            forall|k: int|
                0 <= k < found@.len() ==> {
                    let e = #[trigger] found@[k];
                    &&& e.position < self@.len()
                    &&& e.range@ == self@[e.position as int]
                    &&& e.range@.contains(offset)
                    &&& e.address == e.range@.address_of(offset)
                },
            forall|j: int, k: int|
                0 <= j < k < found@.len() ==> (#[trigger] found@[j]).position
                    < (#[trigger] found@[k]).position,
    {
        let mut found: Vec<Located> = Vec::new();
        let mut i: usize = 0;
        while i < self.ranges.len()
            invariant
                i <= self.ranges@.len(),
                located_views(found@) == located_below(self@, offset, i as int),
            decreases self.ranges@.len() - i,
        {
            let range = &self.ranges[i];
            if range.contains(offset) {
                let ghost before = found@;
                let entry = Located {
                    range: range.duplicate(),
                    position: i,
                    address: range.address_of(offset),
                };
                found.push(entry);
                assert(located_views(found@) =~= located_views(before).push(
                    located_at(self@, offset, i as int),
                ));
            }
            i += 1;
        }
        proof {
            lemma_located_exact(self@, offset);
            let all = located(self@, offset);
            assert forall|k: int| 0 <= k < found@.len() implies {
                let e = #[trigger] found@[k];
                &&& e.position < self@.len()
                &&& e.range@ == self@[e.position as int]
                &&& e.range@.contains(offset)
                &&& e.address == e.range@.address_of(offset)
            } by {
                assert(all[k] == found@[k]@);
            }
            assert forall|j: int, k: int| 0 <= j < k < found@.len() implies (#[trigger] found@[j]).position
                < (#[trigger] found@[k]).position by {
                assert(all[j] == found@[j]@);
                assert(all[k] == found@[k]@);
            }
            assert forall|i: int| 0 <= i < self@.len() implies (self@[i].contains(offset)
                <==> exists|k: int| 0 <= k < found@.len() && (#[trigger] found@[k]).position == i) by {
                let e = located_at(self@, offset, i);
                if self@[i].contains(offset) {
                    assert(all.contains(e));
                    let k = choose|k: int| 0 <= k < all.len() && all[k] == e;
                    assert(all[k] == found@[k]@);
                    assert(found@[k].position == i);
                }
                if exists|k: int| 0 <= k < found@.len() && (#[trigger] found@[k]).position == i {
                    let k = choose|k: int| 0 <= k < found@.len() && (#[trigger] found@[k]).position == i;
                    assert(all[k] == found@[k]@);
                }
            }
        }
        found
    }
}

} // verus!
