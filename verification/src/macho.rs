//! The tables of a Mach-O file as plain values, and the ranges they
//! describe.

use vstd::prelude::*;
use goblin::mach::load_command::cmd_to_str;
use crate::locate::range_views;
use crate::names::load_command_name;
use crate::range::{address_space, Range, RangeKind, RangeView};
use crate::strtab::{name_or_unreadable, read_name};

verus! {

/// One load command: its code and the bytes it takes up in the file.
#[derive(Clone, Copy, Debug, PartialEq, Eq, Structural)]
pub struct LoadCommand {
    pub cmd: u32,
    pub offset: u64,
    pub size: u32,
}

/// One section of a segment. `name` holds the bytes of the name field.
#[derive(Debug, PartialEq, Eq)]
pub struct MachSection {
    pub name: Vec<u8>,
    pub addr: u64,
    pub size: u64,
    pub offset: u32,
}

/// One segment with its sections.
#[derive(Debug, PartialEq, Eq)]
pub struct MachSegment {
    pub vmaddr: u64,
    pub fileoff: u64,
    pub sections: Vec<MachSection>,
}

/// The mathematical value of a [`MachSection`].
pub struct MachSectionView {
    pub name: Seq<u8>,
    pub addr: u64,
    pub size: u64,
    pub offset: u32,
}

/// The mathematical value of a [`MachSegment`].
pub struct MachSegmentView {
    pub vmaddr: u64,
    pub fileoff: u64,
    pub sections: Seq<MachSectionView>,
}

impl View for MachSection {
    type V = MachSectionView;

    open spec fn view(&self) -> MachSectionView {
        MachSectionView { name: self.name@, addr: self.addr, size: self.size, offset: self.offset }
    }
}

impl View for MachSegment {
    type V = MachSegmentView;

    open spec fn view(&self) -> MachSegmentView {
        MachSegmentView {
            vmaddr: self.vmaddr,
            fileoff: self.fileoff,
            sections: self.sections@.map_values(|s: MachSection| s@),
        }
    }
}

/// The values of a sequence of segments.
pub open spec fn segment_views(segments: Seq<MachSegment>) -> Seq<MachSegmentView> {
    segments.map_values(|s: MachSegment| s@)
}

/// The range of a load command: the bytes of the command itself, under the
/// name of its code. A load command is not mapped.
pub open spec fn load_command_range(command: LoadCommand) -> RangeView {
    RangeView {
        kind: RangeKind::LoadCommand,
        name: load_command_name(command.cmd),
        file_offset: command.offset,
        file_size: command.size as u64,
        virtual_address: None,
    }
}

/// The range of a section of a segment: its bytes in the file, mapped at the
/// address of the segment plus the displacement of the section within the
/// segment, in 64-bit address arithmetic.
pub open spec fn mach_section_range(segment: MachSegmentView, index: int) -> RangeView {
    let section = segment.sections[index];
    RangeView {
        kind: RangeKind::Section,
        name: name_or_unreadable(section.name, 0),
        file_offset: section.offset as u64,
        file_size: section.size,
        virtual_address: Some(
            ((segment.vmaddr + (section.offset - segment.fileoff)) % address_space()) as u64,
        ),
    }
}

/// The ranges of the sections of one segment, in table order.
pub open spec fn segment_section_ranges(segment: MachSegmentView) -> Seq<RangeView> {
    Seq::new(segment.sections.len(), |i: int| mach_section_range(segment, i))
}

/// The ranges of the sections of the first `bound` segments.
pub open spec fn section_ranges_below(segments: Seq<MachSegmentView>, bound: int) -> Seq<RangeView>
    decreases bound,
{
    if bound <= 0 {
        Seq::empty()
    } else {
        section_ranges_below(segments, bound - 1) + segment_section_ranges(segments[bound - 1])
    }
}

/// The ranges of a Mach-O file: one for each load command in table order,
/// and then the sections, segment by segment.
pub open spec fn mach_ranges(commands: Seq<LoadCommand>, segments: Seq<MachSegmentView>) -> Seq<
    RangeView,
> {
    Seq::new(commands.len(), |i: int| load_command_range(commands[i])) + section_ranges_below(
        segments,
        segments.len() as int,
    )
}

/// The display name of a load command.
pub fn load_command_text(cmd: u32) -> (name: String)
    ensures
        name@ == load_command_name(cmd),
{
    cmd_to_str(cmd).to_owned()
}

/// The name in a name field, or the placeholder `<unreadable>` where its
/// bytes cannot be read.
pub fn field_name(field: &[u8]) -> (name: String)
    ensures
        name@ == name_or_unreadable(field@, 0),
{
    match read_name(field, 0) {
        Some(name) => name,
        None => "<unreadable>".to_owned(),
    }
}

/// Builds the ranges of a Mach-O file from its load commands and its
/// segments. A section whose name cannot be read gets the name
/// `<unreadable>`; the build goes on.
pub fn build_ranges(commands: &[LoadCommand], segments: &[MachSegment]) -> (ranges: Vec<Range>)
    ensures
        range_views(ranges@) == mach_ranges(commands@, segment_views(segments@)),
{
    let mut ranges: Vec<Range> = Vec::new();
    let mut i: usize = 0;
    while i < commands.len()
        invariant
            i <= commands@.len(),
            range_views(ranges@) == Seq::new(i as nat, |k: int| load_command_range(commands@[k])),
        decreases commands@.len() - i,
    {
        let command = commands[i];
        let ghost before = ranges@;
        ranges.push(
            Range::new(
                RangeKind::LoadCommand,
                load_command_text(command.cmd),
                command.offset,
                command.size as u64,
                None,
            ),
        );
        assert(range_views(ranges@) =~= range_views(before).push(load_command_range(command)));
        i += 1;
    }
    let ghost first = range_views(ranges@);
    let ghost views = segment_views(segments@);
    let mut s: usize = 0;
    while s < segments.len()
        invariant
            s <= segments@.len(),
            views == segment_views(segments@),
            range_views(ranges@) == first + section_ranges_below(views, s as int),
        decreases segments@.len() - s,
    {
        let segment = &segments[s];
        let ghost done = range_views(ranges@);
        let mut k: usize = 0;
        while k < segment.sections.len()
            invariant
                k <= segment.sections@.len(),
                segment@ == views[s as int],
                range_views(ranges@) == done + Seq::new(
                    k as nat,
                    |n: int| mach_section_range(segment@, n),
                ),
            decreases segment.sections@.len() - k,
        {
            let section = &segment.sections[k];
            let ghost before = ranges@;
            let displacement: u64 = (section.offset as u64).wrapping_sub(segment.fileoff);
            let address: u64 = segment.vmaddr.wrapping_add(displacement);
            assert(address as int == (segment.vmaddr + (section.offset - segment.fileoff))
                % address_space()) by {
                assert(address_space() == u64::MAX + 1);
            }
            ranges.push(
                Range::new(
                    RangeKind::Section,
                    field_name(section.name.as_slice()),
                    section.offset as u64,
                    section.size,
                    Some(address),
                ),
            );
            assert(section@ == segment@.sections[k as int]);
            assert(range_views(ranges@) =~= range_views(before).push(
                mach_section_range(segment@, k as int),
            ));
            k += 1;
        }
        assert(range_views(ranges@) =~= first + section_ranges_below(views, s + 1));
        s += 1;
    }
    ranges
}

/// Building the ranges of the same tables again gives the same ranges:
/// whatever two builds return, their values agree.
pub proof fn lemma_build_ranges_repeatable(
    commands: Seq<LoadCommand>,
    segments: Seq<MachSegmentView>,
    first: Seq<Range>,
    second: Seq<Range>,
)
    requires
        range_views(first) == mach_ranges(commands, segments),
        range_views(second) == mach_ranges(commands, segments),
    ensures
        range_views(first) == range_views(second),
        first.len() == second.len(),
        forall|i: int| 0 <= i < first.len() ==> (#[trigger] first[i])@ == second[i]@,
{
    assert(range_views(first).len() == first.len());
    assert(range_views(second).len() == second.len());
    assert forall|i: int| 0 <= i < first.len() implies (#[trigger] first[i])@ == second[i]@ by {
        assert(range_views(first)[i] == first[i]@);
        assert(range_views(second)[i] == second[i]@);
    }
}

} // verus!
