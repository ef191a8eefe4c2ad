//! Search results tied to the ranges that contain them.

use vstd::prelude::*;
use crate::error::InputError;
use crate::locate::{located, located_views, Layout, Located, LocatedView};
use crate::range::RangeView;
use crate::search::{as_offsets, find_all, match_offsets};

verus! {

/// One occurrence of a pattern: its offset in the file and every range that
/// contains that offset, in layout order.
#[derive(Debug, PartialEq, Eq)]
pub struct MatchReport {
    pub offset: u64,
    pub containing: Vec<Located>,
}

/// The mathematical value of a [`MatchReport`].
pub struct MatchReportView {
    pub offset: int,
    pub containing: Seq<LocatedView>,
}

impl View for MatchReport {
    type V = MatchReportView;

    open spec fn view(&self) -> MatchReportView {
        MatchReportView {
            offset: self.offset as int,
            containing: located_views(self.containing@),
        }
    }
}

/// The values of a sequence of reports.
pub open spec fn report_views(reports: Seq<MatchReport>) -> Seq<MatchReportView> {
    reports.map_values(|r: MatchReport| r@)
}

/// The report for one offset of a file with the given ranges.
pub open spec fn report_at(ranges: Seq<RangeView>, offset: int) -> MatchReportView {
    MatchReportView { offset, containing: located(ranges, offset as u64) }
}

/// One report for each offset, in the order of the offsets.
pub open spec fn reports_for(ranges: Seq<RangeView>, offsets: Seq<int>) -> Seq<MatchReportView> {
    offsets.map_values(|o: int| report_at(ranges, o))
}

impl Layout {
    /// Reports, for each of the given offsets in turn, the ranges that
    /// contain it.
    pub fn report(&self, offsets: &[u64]) -> (reports: Vec<MatchReport>)
        ensures
            report_views(reports@) == reports_for(self@, as_offsets(offsets@)),
    {
        let mut reports: Vec<MatchReport> = Vec::new();
        let mut i: usize = 0;
        while i < offsets.len()
            invariant
                i <= offsets@.len(),
                report_views(reports@) == reports_for(self@, as_offsets(offsets@.take(i as int))),
            decreases offsets@.len() - i,
        {
            let offset: u64 = offsets[i];
            let ghost before = reports@;
            reports.push(MatchReport { offset, containing: self.ranges_containing(offset) });
            assert(report_views(reports@) =~= report_views(before).push(
                report_at(self@, offset as int),
            ));
            assert(offsets@.take(i + 1) =~= offsets@.take(i as int).push(offset));
            assert(as_offsets(offsets@.take(i + 1)) =~= as_offsets(offsets@.take(i as int)).push(
                offset as int,
            ));
            i += 1;
        }
        assert(offsets@.take(i as int) =~= offsets@);
        reports
    }

    /// Finds every occurrence of `needle` in `haystack` and reports, for each
    /// in ascending order of offset, the ranges of this layout that contain
    /// it. An empty pattern is rejected. A layout without ranges gives
    /// reports that list no range.
    pub fn correlate(&self, haystack: &[u8], needle: &[u8]) -> (r: Result<
        Vec<MatchReport>,
        InputError,
    >)
        ensures
            needle@.len() == 0 <==> r == Err::<Vec<MatchReport>, InputError>(
                InputError::EmptyPattern,
            ),
            needle@.len() > 0 <==> r is Ok,
            r matches Ok(reports) ==> report_views(reports@) == reports_for(
                self@,
                match_offsets(haystack@, needle@),
            ),
    {
        match find_all(haystack, needle) {
            Ok(found) => Ok(self.report(found.as_slice())),
            Err(e) => Err(e),
        }
    }
}

} // verus!
