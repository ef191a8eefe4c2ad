//! The tables of an ELF file as plain values, and the ranges they describe.

use vstd::prelude::*;
use goblin::elf::program_header::pt_to_str;
use crate::names::segment_type_name;
use crate::range::{Range, RangeKind, RangeView};
use crate::locate::range_views;
use crate::strtab::{name_or_unreadable, StringTable};

verus! {

/// One entry of the program header table.
#[derive(Clone, Copy, Debug, PartialEq, Eq, Structural)]
pub struct ProgramHeader {
    pub p_type: u32,
    pub p_flags: u32,
    pub p_offset: u64,
    pub p_vaddr: u64,
    pub p_paddr: u64,
    pub p_filesz: u64,
    pub p_memsz: u64,
    pub p_align: u64,
}

/// One entry of the section header table. `sh_name` is the offset of the
/// section's name in the section name table.
#[derive(Clone, Copy, Debug, PartialEq, Eq, Structural)]
pub struct SectionHeader {
    pub sh_name: usize,
    pub sh_type: u32,
    pub sh_flags: u64,
    pub sh_addr: u64,
    pub sh_offset: u64,
    pub sh_size: u64,
    pub sh_link: u32,
    pub sh_info: u32,
    pub sh_addralign: u64,
    pub sh_entsize: u64,
}

/// The section index that ELF reserves for absolute symbols.
pub const SHN_ABS: usize = 0xfff1;

/// The section headers of a file with the table that holds their names and
/// the index that the format reserves for "absolute".
#[derive(Debug, PartialEq, Eq)]
pub struct SectionTable {
    pub headers: Vec<SectionHeader>,
    pub names: StringTable,
    pub absolute: usize,
}

/// The mathematical value of a [`SectionTable`].
pub struct SectionTableView {
    pub headers: Seq<SectionHeader>,
    pub names: Seq<u8>,
    pub absolute: int,
}

impl View for SectionTable {
    type V = SectionTableView;

    open spec fn view(&self) -> SectionTableView {
        SectionTableView {
            headers: self.headers@,
            names: self.names@,
            absolute: self.absolute as int,
        }
    }
}

impl SectionTableView {
    /// The name of the section at `index`, or the placeholder where its
    /// bytes cannot be read.
    pub open spec fn section_name(self, index: int) -> Seq<char>
        recommends
            0 <= index < self.headers.len(),
    {
        name_or_unreadable(self.names, self.headers[index].sh_name as int)
    }
}

impl SectionTable {
    /// The section table of an ELF file.
    pub fn new(headers: Vec<SectionHeader>, names: StringTable) -> (table: SectionTable)
        ensures
            table@ == (SectionTableView {
                headers: headers@,
                names: names@,
                absolute: SHN_ABS as int,
            }),
    {
        SectionTable { headers, names, absolute: SHN_ABS }
    }

    /// The number of sections.
    pub fn len(&self) -> (n: usize)
        ensures
            n == self@.headers.len(),
    {
        self.headers.len()
    }

    /// The name of the section at `index`, or the placeholder where its
    /// bytes cannot be read.
    pub fn section_name(&self, index: usize) -> (name: String)
        requires
            index < self@.headers.len(),
        ensures
            name@ == self@.section_name(index as int),
    {
        self.names.name_or_unreadable(self.headers[index].sh_name)
    }
}

/// The range that a program header describes: the bytes of the segment in
/// the file, mapped at its virtual address, under the name of its type.
pub open spec fn segment_range(header: ProgramHeader) -> RangeView {
    RangeView {
        kind: RangeKind::ProgramHeader,
        name: segment_type_name(header.p_type),
        file_offset: header.p_offset,
        file_size: header.p_filesz,
        virtual_address: Some(header.p_vaddr),
    }
}

/// The range that the section at `index` describes.
pub open spec fn section_range(sections: SectionTableView, index: int) -> RangeView {
    RangeView {
        kind: RangeKind::Section,
        name: sections.section_name(index),
        file_offset: sections.headers[index].sh_offset,
        file_size: sections.headers[index].sh_size,
        virtual_address: Some(sections.headers[index].sh_addr),
    }
}

/// The ranges of an ELF file: one for each program header and then one for
/// each section header, each group in the order of its table.
pub open spec fn elf_ranges(segments: Seq<ProgramHeader>, sections: SectionTableView) -> Seq<
    RangeView,
> {
    Seq::new(segments.len(), |i: int| segment_range(segments[i])) + Seq::new(
        sections.headers.len(),
        |i: int| section_range(sections, i),
    )
}

/// The display name of a program header type.
pub fn segment_type_text(p_type: u32) -> (name: String)
    ensures
        name@ == segment_type_name(p_type),
{
    pt_to_str(p_type).to_owned()
}

/// Builds the ranges of an ELF file from its program headers and its
/// section table. A section whose name cannot be read gets the name
/// `<unreadable>`; the build goes on.
pub fn build_ranges(segments: &[ProgramHeader], sections: &SectionTable) -> (ranges: Vec<Range>)
    ensures
        range_views(ranges@) == elf_ranges(segments@, sections@),
{
    let mut ranges: Vec<Range> = Vec::new();
    let mut i: usize = 0;
    while i < segments.len()
        invariant
            i <= segments@.len(),
            range_views(ranges@) == Seq::new(i as nat, |k: int| segment_range(segments@[k])),
        decreases segments@.len() - i,
    {
        let header = segments[i];
        let ghost before = ranges@;
        ranges.push(
            Range::new(
                RangeKind::ProgramHeader,
                segment_type_text(header.p_type),
                header.p_offset,
                header.p_filesz,
                Some(header.p_vaddr),
            ),
        );
        assert(range_views(ranges@) =~= range_views(before).push(segment_range(header)));
        i += 1;
    }
    let ghost first = range_views(ranges@);
    let mut j: usize = 0;
    while j < sections.headers.len()
        invariant
            j <= sections@.headers.len(),
            range_views(ranges@) == first + Seq::new(
                j as nat,
                |k: int| section_range(sections@, k),
            ),
        decreases sections@.headers.len() - j,
    {
        let header = sections.headers[j];
        let ghost before = ranges@;
        ranges.push(
            Range::new(
                RangeKind::Section,
                sections.section_name(j),
                header.sh_offset,
                header.sh_size,
                Some(header.sh_addr),
            ),
        );
        assert(range_views(ranges@) =~= range_views(before).push(
            section_range(sections@, j as int),
        ));
        j += 1;
    }
    ranges
}

/// Building the ranges of the same tables again gives the same ranges:
/// whatever two builds return, their values agree.
pub proof fn lemma_build_ranges_repeatable(
    segments: Seq<ProgramHeader>,
    sections: SectionTableView,
    first: Seq<Range>,
    second: Seq<Range>,
)
    requires
        range_views(first) == elf_ranges(segments, sections),
        range_views(second) == elf_ranges(segments, sections),
    ensures
        range_views(first) == range_views(second),
        first.len() == second.len(),
        forall|i: int| 0 <= i < first.len() ==> (#[trigger] first[i])@ == second[i]@,
{
    assert(range_views(first).len() == first.len());
    assert(range_views(second).len() == second.len());
    assert forall|i: int| 0 <= i < first.len() implies (#[trigger] first[i])@ == second[i]@ by {
        assert(range_views(first)[i] == first[i]@);
        assert(range_views(second)[i] == second[i]@);
    }
}

} // verus!
