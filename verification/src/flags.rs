//! How the flag words and type codes of ELF tables are shown.

use vstd::prelude::*;
use goblin::elf::section_header::shf_to_str;
use crate::text::{hexadecimal, hexadecimal_text};

verus! {

/// Segment permission: execute.
pub const PF_X: u32 = 1;

/// Segment permission: write.
pub const PF_W: u32 = 2;

/// Segment permission: read.
pub const PF_R: u32 = 4;

/// The number of section flags that have a name.
pub const SECTION_FLAG_COUNT: usize = 12;

/// The text for the permissions of a segment. The combinations of read and
/// write with execute, and read or write alone, have a short form; every
/// other flag word is shown as a number.
pub open spec fn segment_flags(flags: u32) -> Seq<char> {
    if flags == 7 {
        "RW+X"@
    } else if flags == 6 {
        "RW"@
    } else if flags == 5 {
        "R+X"@
    } else if flags == 3 {
        "W+X"@
    } else if flags == 4 {
        "R"@
    } else if flags == 2 {
        "W"@
    } else {
        hexadecimal(flags as nat)
    }
}

/// The text for the permissions of a segment.
pub fn segment_flags_text(flags: u32) -> (text: String)
    ensures
        text@ == segment_flags(flags),
{
    if flags == PF_R + PF_W + PF_X {
        "RW+X".to_owned()
    } else if flags == PF_R + PF_W {
        "RW".to_owned()
    } else if flags == PF_R + PF_X {
        "R+X".to_owned()
    } else if flags == PF_W + PF_X {
        "W+X".to_owned()
    } else if flags == PF_R {
        "R".to_owned()
    } else if flags == PF_W {
        "W".to_owned()
    } else {
        hexadecimal_text(flags as u64)
    }
}

/// The kind of file that an ELF header declares.
#[derive(Clone, Copy, Debug, PartialEq, Eq, Structural)]
pub enum ObjectKind {
    Relocatable,
    Executable,
    SharedObject,
    Core,
    Other,
}

/// The kind of file for the type code of an ELF header.
pub fn object_kind(e_type: u16) -> (kind: ObjectKind)
    ensures
        kind == (if e_type == 1 {
            ObjectKind::Relocatable
        } else if e_type == 2 {
            ObjectKind::Executable
        } else if e_type == 3 {
            ObjectKind::SharedObject
        } else if e_type == 4 {
            ObjectKind::Core
        } else {
            ObjectKind::Other
        }),
{
    match e_type {
        1 => ObjectKind::Relocatable,
        2 => ObjectKind::Executable,
        3 => ObjectKind::SharedObject,
        4 => ObjectKind::Core,
        _ => ObjectKind::Other,
    }
}

/// The kinds of segment that are told apart when they are shown.
#[derive(Clone, Copy, Debug, PartialEq, Eq, Structural)]
pub enum SegmentKind {
    Load,
    Dynamic,
    Interpreter,
    Other,
}

/// The kind of segment for the type code of a program header.
pub fn segment_kind(p_type: u32) -> (kind: SegmentKind)
    ensures
        kind == (if p_type == 1 {
            SegmentKind::Load
        } else if p_type == 2 {
            SegmentKind::Dynamic
        } else if p_type == 3 {
            SegmentKind::Interpreter
        } else {
            SegmentKind::Other
        }),
{
    match p_type {
        1 => SegmentKind::Load,
        2 => SegmentKind::Dynamic,
        3 => SegmentKind::Interpreter,
        _ => SegmentKind::Other,
    }
}

/// The bit of the named section flag with the given place in the list of
/// named flags: the twelve flags of the format, in ascending order of bit.
pub open spec fn section_flag(place: int) -> u32 {
    if place == 0 {
        0x1
    } else if place == 1 {
        0x2
    } else if place == 2 {
        0x4
    } else if place == 3 {
        0x10
    } else if place == 4 {
        0x20
    } else if place == 5 {
        0x40
    } else if place == 6 {
        0x80
    } else if place == 7 {
        0x100
    } else if place == 8 {
        0x200
    } else if place == 9 {
        0x400
    } else if place == 10 {
        0x800
    } else {
        0x4000_0000
    }
}

/// The bit of the named section flag at `place`.
pub fn section_flag_bit(place: usize) -> (bit: u32)
    requires
        place < SECTION_FLAG_COUNT,
    ensures
        bit == section_flag(place as int),
{
    match place {
        0 => 0x1,
        1 => 0x2,
        2 => 0x4,
        3 => 0x10,
        4 => 0x20,
        5 => 0x40,
        6 => 0x80,
        7 => 0x100,
        8 => 0x200,
        9 => 0x400,
        10 => 0x800,
        _ => 0x4000_0000,
    }
}

/// The full name of a section flag, as a function of its bit.
pub uninterp spec fn section_flag_name(flag: u32) -> Seq<char>;

/// `goblin::elf::section_header::shf_to_str` looks the bit up in a fixed
/// table of static names; the same bit gives the same name.
pub assume_specification[ goblin::elf::section_header::shf_to_str ](shf: u32) -> (name:
    &'static str)
    ensures
        name@ == section_flag_name(shf),
;

/// A flag name as it is shown: without the four characters of the prefix
/// that all flag names share. A name shorter than that prefix is shown as
/// nothing.
pub open spec fn short_flag_name(name: Seq<char>) -> Seq<char> {
    if name.len() >= 4 {
        name.subrange(4, name.len() as int)
    } else {
        Seq::empty()
    }
}

/// Whether the flag word of a section has the named flag at `place`. Only
/// the lower 32 bits of the word hold named flags.
pub open spec fn has_section_flag(sh_flags: u64, place: int) -> bool {
    (sh_flags as u32) & section_flag(place) == section_flag(place)
}

/// The short names of the named flags among the first `bound` that are set
/// in a flag word, in the order of the list.
pub open spec fn flag_names_below(sh_flags: u64, bound: int) -> Seq<Seq<char>>
    decreases bound,
{
    if bound <= 0 {
        Seq::empty()
    } else if has_section_flag(sh_flags, bound - 1) {
        flag_names_below(sh_flags, bound - 1).push(
            short_flag_name(section_flag_name(section_flag(bound - 1))),
        )
    } else {
        flag_names_below(sh_flags, bound - 1)
    }
}

/// The short names of all named flags that are set in a flag word.
pub open spec fn section_flag_names(sh_flags: u64) -> Seq<Seq<char>> {
    flag_names_below(sh_flags, SECTION_FLAG_COUNT as int)
}

/// The characters of each text of a sequence.
pub open spec fn texts(names: Seq<String>) -> Seq<Seq<char>> {
    names.map_values(|s: String| s@)
}

/// The short form of a flag name.
pub fn short_flag_text(name: &str) -> (short: String)
    ensures
        short@ == short_flag_name(name@),
{
    let len: usize = name.unicode_len();
    if len >= 4 {
        name.substring_char(4, len).to_owned()
    } else {
        String::new()
    }
}

/// The short names of the named flags that are set in the flag word of a
/// section, in ascending order of bit.
pub fn section_flag_texts(sh_flags: u64) -> (names: Vec<String>)
    ensures
        texts(names@) == section_flag_names(sh_flags),
{
    let word: u32 = (sh_flags & 0xffff_ffff) as u32;
    assert(word == sh_flags as u32) by (bit_vector)
        requires
            word == (sh_flags & 0xffff_ffff) as u32,
    ;
    let mut names: Vec<String> = Vec::new();
    let mut place: usize = 0;
    while place < SECTION_FLAG_COUNT
        invariant
            place <= SECTION_FLAG_COUNT,
            word == sh_flags as u32,
            texts(names@) == flag_names_below(sh_flags, place as int),
        decreases SECTION_FLAG_COUNT - place,
    {
        let bit: u32 = section_flag_bit(place);
        if word & bit == bit {
            let ghost before = names@;
            names.push(short_flag_text(shf_to_str(bit)));
            assert(texts(names@) =~= texts(before).push(
                short_flag_name(section_flag_name(bit)),
            ));
        }
        place += 1;
    }
    names
}

} // verus!
