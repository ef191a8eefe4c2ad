//! Entries of the dynamic table and what their values mean.

use vstd::prelude::*;
use crate::strtab::{name_or_unreadable, StringTable};

verus! {

/// One entry of the dynamic table.
#[derive(Clone, Copy, Debug, PartialEq, Eq, Structural)]
pub struct DynamicEntry {
    pub d_tag: u64,
    pub d_val: u64,
}

/// What the value of a dynamic entry is.
#[derive(Clone, Copy, Debug, PartialEq, Eq, Structural)]
pub enum ValueKind {
    /// The offset of a name in the dynamic string table.
    Name,
    /// An address in memory.
    Address,
    /// A size in bytes.
    Size,
    /// A number with no further reading.
    Number,
}

/// The value of a dynamic entry, read by the kind of its tag.
#[derive(Debug, PartialEq, Eq)]
pub enum DynamicValue {
    Name(String),
    Address(u64),
    Size(u64),
    Number(u64),
}

/// The mathematical value of a [`DynamicValue`].
pub enum DynamicValueView {
    Name(Seq<char>),
    Address(u64),
    Size(u64),
    Number(u64),
}

impl View for DynamicValue {
    type V = DynamicValueView;

    open spec fn view(&self) -> DynamicValueView {
        match self {
            DynamicValue::Name(name) => DynamicValueView::Name(name@),
            DynamicValue::Address(a) => DynamicValueView::Address(*a),
            DynamicValue::Size(s) => DynamicValueView::Size(*s),
            DynamicValue::Number(n) => DynamicValueView::Number(*n),
        }
    }
}

/// The kind of value that a tag announces. The tags for a needed library
/// and for the run path hold names; the tags for the tables and entry
/// points of the file hold addresses; the tags for the extents of those
/// tables hold sizes.
pub open spec fn value_kind(tag: u64) -> ValueKind {
    if tag == 1 || tag == 15 {
        ValueKind::Name
    } else if tag == 3 || tag == 5 || tag == 6 || tag == 7 || tag == 12 || tag == 13 || tag == 23
        || tag == 25 || tag == 26 || tag == 0x6fff_fef5 || tag == 0x6fff_fff0 || tag
        == 0x6fff_fffe {
        ValueKind::Address
    } else if tag == 2 || tag == 8 || tag == 10 || tag == 27 || tag == 28 {
        ValueKind::Size
    } else {
        ValueKind::Number
    }
}

/// The value of an entry, read against the dynamic string table.
pub open spec fn dynamic_value(entry: DynamicEntry, strings: Seq<u8>) -> DynamicValueView {
    match value_kind(entry.d_tag) {
        ValueKind::Name => DynamicValueView::Name(name_or_unreadable(strings, entry.d_val as int)),
        ValueKind::Address => DynamicValueView::Address(entry.d_val),
        ValueKind::Size => DynamicValueView::Size(entry.d_val),
        ValueKind::Number => DynamicValueView::Number(entry.d_val),
    }
}

/// The kind of value that a tag announces.
pub fn classify_tag(tag: u64) -> (kind: ValueKind)
    ensures
        kind == value_kind(tag),
{
    match tag {
        1 | 15 => ValueKind::Name,
        3 | 5 | 6 | 7 | 12 | 13 | 23 | 25 | 26 | 0x6fff_fef5 | 0x6fff_fff0 | 0x6fff_fffe => {
            ValueKind::Address
        },
        2 | 8 | 10 | 27 | 28 => ValueKind::Size,
        _ => ValueKind::Number,
    }
}

/// Reads the value of a dynamic entry. A name that cannot be read, or that
/// lies beyond the string table, is the placeholder `<unreadable>`.
pub fn resolve_dynamic(entry: &DynamicEntry, strings: &StringTable) -> (value: DynamicValue)
    ensures
        value@ == dynamic_value(*entry, strings@),
{
    match classify_tag(entry.d_tag) {
        ValueKind::Name => {
            if entry.d_val <= strings.len() as u64 {
                DynamicValue::Name(strings.name_or_unreadable(entry.d_val as usize))
            } else {
                DynamicValue::Name("<unreadable>".to_owned())
            }
        },
        ValueKind::Address => DynamicValue::Address(entry.d_val),
        ValueKind::Size => DynamicValue::Size(entry.d_val),
        ValueKind::Number => DynamicValue::Number(entry.d_val),
    }
}

} // verus!
