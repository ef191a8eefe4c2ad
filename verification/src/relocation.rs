//! Relocation entries resolved against their symbol and, for a nameless
//! symbol of a section, against the section table.

use vstd::prelude::*;
use goblin::elf::reloc::r_to_str;
use crate::elf::{SectionTable, SectionTableView};
use crate::names::relocation_type_name;
use crate::section_index::{
    resolve_section_index, section_label, section_name_or_label, section_ref, SectionRef,
    SectionRefView,
};
use crate::strtab::{name_or_unreadable, StringTable};
use crate::symbol::{symbol_type_of, Symbol, SymbolType};
use crate::text::{hexadecimal, signed_hexadecimal, signed_hexadecimal_text};

verus! {

/// One relocation entry. `r_sym` is the index of its symbol in the symbol
/// table that belongs to the relocation table; an entry of a table without
/// addends has the addend zero.
#[derive(Clone, Copy, Debug, PartialEq, Eq, Structural)]
pub struct Relocation {
    pub r_offset: u64,
    pub r_addend: i64,
    pub r_sym: usize,
    pub r_type: u32,
}

/// A relocation entry with the name of what it refers to and its addend as
/// it is shown.
#[derive(Debug, PartialEq, Eq)]
pub struct RelocationRef {
    pub offset: u64,
    pub r_type: u32,
    pub symbol: String,
    pub addend: String,
}

/// The mathematical value of a [`RelocationRef`].
pub struct RelocationRefView {
    pub offset: u64,
    pub r_type: u32,
    pub symbol: Seq<char>,
    pub addend: Seq<char>,
}

impl View for RelocationRef {
    type V = RelocationRefView;

    open spec fn view(&self) -> RelocationRefView {
        RelocationRefView {
            offset: self.offset,
            r_type: self.r_type,
            symbol: self.symbol@,
            addend: self.addend@,
        }
    }
}

impl RelocationRefView {
    /// The target as it is shown: the name and then the addend.
    pub open spec fn target(self) -> Seq<char> {
        self.symbol + self.addend
    }
}

/// The name shown for the symbol of a relocation. A symbol with a name
/// shows it; a nameless symbol of a section shows the name of the section;
/// any other nameless symbol shows `ABS`; a symbol index past the end of
/// the symbol table shows `BAD_IDX(index)`.
pub open spec fn relocation_symbol_name(
    r_sym: int,
    symbols: Seq<Symbol>,
    strings: Seq<u8>,
    sections: SectionTableView,
) -> Seq<char> {
    if 0 <= r_sym < symbols.len() {
        let symbol = symbols[r_sym];
        let own = name_or_unreadable(strings, symbol.st_name as int);
        if own.len() > 0 {
            own
        } else if symbol_type_of(symbol.st_info) == SymbolType::Section {
            section_name_or_label(section_ref(symbol.st_shndx as int, sections))
        } else {
            "ABS"@
        }
    } else {
        section_label(SectionRefView::BadIndex(r_sym))
    }
}

/// The addend as it is shown: nothing for zero, and otherwise the sign and
/// the magnitude in prefixed hexadecimal.
pub open spec fn addend_text(addend: int) -> Seq<char> {
    if addend == 0 {
        Seq::empty()
    } else {
        signed_hexadecimal(addend)
    }
}

/// A relocation entry resolved against the tables.
pub open spec fn relocation_ref(
    entry: Relocation,
    symbols: Seq<Symbol>,
    strings: Seq<u8>,
    sections: SectionTableView,
) -> RelocationRefView {
    RelocationRefView {
        offset: entry.r_offset,
        r_type: entry.r_type,
        symbol: relocation_symbol_name(entry.r_sym as int, symbols, strings, sections),
        addend: addend_text(entry.r_addend as int),
    }
}

/// The display name of a relocation type on a machine.
pub fn relocation_type_text(r_type: u32, machine: u16) -> (name: String)
    ensures
        name@ == relocation_type_name(r_type, machine),
{
    r_to_str(r_type, machine).to_owned()
}

/// The addend as it is shown.
pub fn render_addend(addend: i64) -> (text: String)
    ensures
        text@ == addend_text(addend as int),
{
    if addend == 0 {
        String::new()
    } else {
        signed_hexadecimal_text(addend)
    }
}

/// Resolves a relocation entry against its symbol table, the string table
/// of the symbols, and the section table.
pub fn resolve_relocation(
    entry: &Relocation,
    symbols: &[Symbol],
    strings: &StringTable,
    sections: &SectionTable,
) -> (r: RelocationRef)
    ensures
        r@ == relocation_ref(*entry, symbols@, strings@, sections@),
{
    let symbol = if entry.r_sym < symbols.len() {
        let symbol = &symbols[entry.r_sym];
        let own = strings.name_or_unreadable(symbol.st_name);
        if !own.as_str().is_empty() {
            own
        } else if symbol.symbol_type() == SymbolType::Section {
            resolve_section_index(symbol.st_shndx, sections).name_or_label()
        } else {
            "ABS".to_owned()
        }
    } else {
        SectionRef::BadIndex(entry.r_sym).label()
    };
    RelocationRef {
        offset: entry.r_offset,
        r_type: entry.r_type,
        symbol,
        addend: render_addend(entry.r_addend),
    }
}

/// Resolves every entry of a relocation table, in table order.
pub fn resolve_relocations(
    entries: &[Relocation],
    symbols: &[Symbol],
    strings: &StringTable,
    sections: &SectionTable,
) -> (resolved: Vec<RelocationRef>)
    ensures
        resolved@.len() == entries@.len(),
        forall|i: int|
            0 <= i < entries@.len() ==> (#[trigger] resolved@[i])@ == relocation_ref(
                entries@[i],
                symbols@,
                strings@,
                sections@,
            ),
{
    let mut resolved: Vec<RelocationRef> = Vec::new();
    let mut i: usize = 0;
    while i < entries.len()
        invariant
            i <= entries@.len(),
            resolved@.len() == i,
            forall|k: int|
                0 <= k < i ==> (#[trigger] resolved@[k])@ == relocation_ref(
                    entries@[k],
                    symbols@,
                    strings@,
                    sections@,
                ),
        decreases entries@.len() - i,
    {
        resolved.push(resolve_relocation(&entries[i], symbols, strings, sections));
        i += 1;
    }
    resolved
}

impl RelocationRef {
    /// The target as it is shown: the name and then the addend.
    pub fn target(&self) -> (text: String)
        ensures
            text@ == self@.target(),
    {
        let mut text = self.symbol.clone();
        text.append(self.addend.as_str());
        text
    }
}

/// An addend of zero leaves no trace in what is shown, and only zero does:
/// any other addend starts with its sign, `-` for a negative one and `+`
/// for a positive one, followed by its magnitude.
pub proof fn lemma_addend_text(addend: int)
    ensures
        addend == 0 <==> addend_text(addend).len() == 0,
        addend < 0 ==> addend_text(addend) == seq!['-'] + hexadecimal((-addend) as nat),
        addend > 0 ==> addend_text(addend) == seq!['+'] + hexadecimal(addend as nat),
        addend < 0 ==> addend_text(addend)[0] == '-',
        addend > 0 ==> addend_text(addend)[0] == '+',
{
}

/// A relocation with the addend zero shows the name of its symbol and
/// nothing more.
pub proof fn lemma_zero_addend_not_shown(
    entry: Relocation,
    symbols: Seq<Symbol>,
    strings: Seq<u8>,
    sections: SectionTableView,
)
    requires
        entry.r_addend == 0,
    ensures
        relocation_ref(entry, symbols, strings, sections).target() == relocation_symbol_name(
            entry.r_sym as int,
            symbols,
            strings,
            sections,
        ),
{
    let r = relocation_ref(entry, symbols, strings, sections);
    assert(r.target() =~= r.symbol);
}

/// The addend minus one is shown as `-0x1`.
pub proof fn lemma_addend_minus_one()
    ensures
        addend_text(-1) == seq!['-', '0', 'x', '1'],
{
    reveal_with_fuel(crate::text::hex_digits, 2);
    assert(addend_text(-1) =~= seq!['-', '0', 'x', '1']);
}

} // verus!
