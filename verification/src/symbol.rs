//! Symbol table entries resolved against their string table and the
//! section table.

use vstd::prelude::*;
use goblin::elf::sym::{st_bind, st_type};
use crate::elf::{SectionTable, SectionTableView};
use crate::section_index::{
    resolve_section_index, section_label, section_name_or_label, section_ref,
};
use crate::strtab::{name_or_unreadable, StringTable};

verus! {

/// One entry of a symbol table. `st_name` is the offset of the symbol's name
/// in the string table that belongs to the symbol table.
#[derive(Clone, Copy, Debug, PartialEq, Eq, Structural)]
pub struct Symbol {
    pub st_name: usize,
    pub st_info: u8,
    pub st_other: u8,
    pub st_shndx: usize,
    pub st_value: u64,
    pub st_size: u64,
}

/// How a symbol is bound.
#[derive(Clone, Copy, Debug, PartialEq, Eq, Structural)]
pub enum Binding {
    Local,
    Global,
    Weak,
    Other,
}

/// What a symbol stands for.
#[derive(Clone, Copy, Debug, PartialEq, Eq, Structural)]
pub enum SymbolType {
    Object,
    Function,
    IndirectFunction,
    Section,
    Other,
}

/// `goblin::elf::sym::st_bind` returns the upper four bits of the info byte.
pub assume_specification[ goblin::elf::sym::st_bind ](info: u8) -> (bind: u8)
    ensures
        bind == info >> 4,
;

/// `goblin::elf::sym::st_type` returns the lower four bits of the info byte.
pub assume_specification[ goblin::elf::sym::st_type ](info: u8) -> (kind: u8)
    ensures
        kind == info & 0xf,
;

/// The binding that an info byte encodes in its upper four bits.
pub open spec fn binding_of(info: u8) -> Binding {
    let bind = info >> 4;
    if bind == 0 {
        Binding::Local
    } else if bind == 1 {
        Binding::Global
    } else if bind == 2 {
        Binding::Weak
    } else {
        Binding::Other
    }
}

/// The symbol type that an info byte encodes in its lower four bits.
pub open spec fn symbol_type_of(info: u8) -> SymbolType {
    let kind = info & 0xf;
    if kind == 1 {
        SymbolType::Object
    } else if kind == 2 {
        SymbolType::Function
    } else if kind == 10 {
        SymbolType::IndirectFunction
    } else if kind == 3 {
        SymbolType::Section
    } else {
        SymbolType::Other
    }
}

impl Symbol {
    /// How the symbol is bound.
    pub fn binding(&self) -> (b: Binding)
        ensures
            b == binding_of(self.st_info),
    {
        let bind: u8 = st_bind(self.st_info);
        if bind == 0 {
            Binding::Local
        } else if bind == 1 {
            Binding::Global
        } else if bind == 2 {
            Binding::Weak
        } else {
            Binding::Other
        }
    }

    /// What the symbol stands for.
    pub fn symbol_type(&self) -> (t: SymbolType)
        ensures
            t == symbol_type_of(self.st_info),
    {
        let kind: u8 = st_type(self.st_info);
        if kind == 1 {
            SymbolType::Object
        } else if kind == 2 {
            SymbolType::Function
        } else if kind == 10 {
            SymbolType::IndirectFunction
        } else if kind == 3 {
            SymbolType::Section
        } else {
            SymbolType::Other
        }
    }
}

/// The resolved identity of a symbol.
#[derive(Debug, PartialEq, Eq)]
pub struct SymbolRef {
    pub value: u64,
    pub size: u64,
    pub binding: Binding,
    pub symbol_type: SymbolType,
    pub name: String,
    pub owning_section: String,
}

/// The mathematical value of a [`SymbolRef`].
pub struct SymbolRefView {
    pub value: u64,
    pub size: u64,
    pub binding: Binding,
    pub symbol_type: SymbolType,
    pub name: Seq<char>,
    pub owning_section: Seq<char>,
}

impl View for SymbolRef {
    type V = SymbolRefView;

    open spec fn view(&self) -> SymbolRefView {
        SymbolRefView {
            value: self.value,
            size: self.size,
            binding: self.binding,
            symbol_type: self.symbol_type,
            name: self.name@,
            owning_section: self.owning_section@,
        }
    }
}

/// The name of a symbol: the name that the string table holds for it, the
/// placeholder where that cannot be read, and, for a nameless symbol of a
/// section, the name of that section.
pub open spec fn symbol_name(symbol: Symbol, strings: Seq<u8>, sections: SectionTableView) -> Seq<
    char,
> {
    let own = name_or_unreadable(strings, symbol.st_name as int);
    if own.len() == 0 && symbol_type_of(symbol.st_info) == SymbolType::Section {
        section_name_or_label(section_ref(symbol.st_shndx as int, sections))
    } else {
        own
    }
}

/// The resolved identity of a symbol.
pub open spec fn symbol_ref(symbol: Symbol, strings: Seq<u8>, sections: SectionTableView)
    -> SymbolRefView {
    SymbolRefView {
        value: symbol.st_value,
        size: symbol.st_size,
        binding: binding_of(symbol.st_info),
        symbol_type: symbol_type_of(symbol.st_info),
        name: symbol_name(symbol, strings, sections),
        owning_section: section_label(section_ref(symbol.st_shndx as int, sections)),
    }
}

/// Resolves one symbol against its string table and the section table.
pub fn describe_symbol(symbol: &Symbol, strings: &StringTable, sections: &SectionTable) -> (r:
    SymbolRef)
    ensures
        r@ == symbol_ref(*symbol, strings@, sections@),
{
    let section = resolve_section_index(symbol.st_shndx, sections);
    let symbol_type = symbol.symbol_type();
    let own = strings.name_or_unreadable(symbol.st_name);
    let name = if own.as_str().is_empty() && symbol_type == SymbolType::Section {
        section.name_or_label()
    } else {
        own
    };
    SymbolRef {
        value: symbol.st_value,
        size: symbol.st_size,
        binding: symbol.binding(),
        symbol_type,
        name,
        owning_section: section.label(),
    }
}

/// Resolves the symbol at `index` of a symbol table. There is none where
/// `index` lies past the end of the table.
pub fn resolve_symbol(
    index: usize,
    symbols: &[Symbol],
    strings: &StringTable,
    sections: &SectionTable,
) -> (r: Option<SymbolRef>)
    ensures
        index < symbols@.len() <==> r is Some,
        r matches Some(resolved) ==> resolved@ == symbol_ref(
            symbols@[index as int],
            strings@,
            sections@,
        ),
{
    if index < symbols.len() {
        Some(describe_symbol(&symbols[index], strings, sections))
    } else {
        None
    }
}

/// The section field of a resolved symbol: empty for section index zero,
/// `ABS` for the reserved index outside the table, and `BAD_IDX(index)` for
/// any other index at or past the end of the table.
pub proof fn lemma_owning_section(symbol: Symbol, strings: Seq<u8>, sections: SectionTableView)
    ensures
        symbol.st_shndx == 0 ==> symbol_ref(symbol, strings, sections).owning_section
            == Seq::<char>::empty(),
        symbol.st_shndx != 0 && symbol.st_shndx >= sections.headers.len() && symbol.st_shndx
            == sections.absolute ==> symbol_ref(symbol, strings, sections).owning_section == "ABS"@,
        symbol.st_shndx != 0 && symbol.st_shndx >= sections.headers.len() && symbol.st_shndx
            != sections.absolute ==> symbol_ref(symbol, strings, sections).owning_section
            == section_label(crate::section_index::SectionRefView::BadIndex(symbol.st_shndx as int)),
{
}

} // verus!
