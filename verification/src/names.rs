//! Display names that the format tables define for numeric codes, and the
//! readable form of mangled symbol names.

use std::fmt::Write;
use vstd::prelude::*;

verus! {

/// The name of a program header type, as a function of its code.
pub uninterp spec fn segment_type_name(p_type: u32) -> Seq<char>;

/// `goblin::elf::program_header::pt_to_str` looks the code up in a fixed
/// table of static names; the same code gives the same name.
pub assume_specification[ goblin::elf::program_header::pt_to_str ](pt: u32) -> (name: &'static str)
    ensures
        name@ == segment_type_name(pt),
;

/// The name of a load command, as a function of its code.
pub uninterp spec fn load_command_name(cmd: u32) -> Seq<char>;

/// `goblin::mach::load_command::cmd_to_str` looks the code up in a fixed
/// table of static names; the same code gives the same name.
pub assume_specification[ goblin::mach::load_command::cmd_to_str ](cmd: u32) -> (name:
    &'static str)
    ensures
        name@ == load_command_name(cmd),
;

/// The name of a relocation type on a machine, as a function of the two
/// codes.
pub uninterp spec fn relocation_type_name(r_type: u32, machine: u16) -> Seq<char>;

/// `goblin::elf::reloc::r_to_str` looks the pair of codes up in fixed tables
/// of static names; the same pair gives the same name.
pub assume_specification[ goblin::elf::reloc::r_to_str ](typ: u32, machine: u16) -> (name:
    &'static str)
    ensures
        name@ == relocation_type_name(typ, machine),
;

/// The readable form of a symbol name, as a function of the name.
pub uninterp spec fn demangled(name: Seq<char>) -> Seq<char>;

/// `rustc_demangle::demangle` parses the name and its `Display` writes the
/// readable form, or the name itself where it is not mangled. The text
/// depends on the name alone.
#[verifier::external_body]
fn demangle_text(name: &str) -> (text: String)
    ensures
        text@ == demangled(name@),
{
    let mut text = String::new();
    let _ = write!(text, "{}", rustc_demangle::demangle(name));
    text
}

/// The text to show for a symbol name: the name as it stands, or its
/// readable form where demangling is asked for. An empty name stays empty.
pub fn display_name(name: &str, demangle: bool) -> (text: String)
    ensures
        text@ == if demangle && name@.len() > 0 {
            demangled(name@)
        } else {
            name@
        },
{
    if demangle && !name.is_empty() {
        demangle_text(name)
    } else {
        name.to_owned()
    }
}

} // verus!
