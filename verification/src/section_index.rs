//! What a section index stands for, and how it is shown.

use vstd::prelude::*;
use crate::elf::{SectionTable, SectionTableView};
use crate::text::{decimal, push_decimal};

verus! {

/// What a section index refers to.
#[derive(Debug, PartialEq, Eq)]
pub enum SectionRef {
    /// Index zero: no section.
    Unset,
    /// A section of the table, with its name.
    Named { name: String, index: usize },
    /// The index that the format reserves for "absolute".
    Absolute,
    /// An index past the end of the table that is not the reserved one.
    BadIndex(usize),
}

/// The mathematical value of a [`SectionRef`].
pub enum SectionRefView {
    Unset,
    Named { name: Seq<char>, index: int },
    Absolute,
    BadIndex(int),
}

impl View for SectionRef {
    type V = SectionRefView;

    open spec fn view(&self) -> SectionRefView {
        match self {
            SectionRef::Unset => SectionRefView::Unset,
            SectionRef::Named { name, index } => SectionRefView::Named {
                name: name@,
                index: *index as int,
            },
            SectionRef::Absolute => SectionRefView::Absolute,
            SectionRef::BadIndex(n) => SectionRefView::BadIndex(*n as int),
        }
    }
}

/// What `index` refers to in a section table. Zero is no section; an index
/// inside the table is that section; outside the table the reserved index
/// is "absolute" and every other index is bad.
pub open spec fn section_ref(index: int, sections: SectionTableView) -> SectionRefView {
    if index == 0 {
        SectionRefView::Unset
    } else if 0 < index < sections.headers.len() {
        SectionRefView::Named { name: sections.section_name(index), index }
    } else if index == sections.absolute {
        SectionRefView::Absolute
    } else {
        SectionRefView::BadIndex(index)
    }
}

/// The text shown for a section reference: nothing for no section,
/// `name(index)` for a section, `ABS`, or `BAD_IDX(index)`.
pub open spec fn section_label(target: SectionRefView) -> Seq<char> {
    match target {
        SectionRefView::Unset => Seq::empty(),
        SectionRefView::Named { name, index } => name + seq!['('] + decimal(index as nat) + seq![
            ')',
        ],
        SectionRefView::Absolute => "ABS"@,
        SectionRefView::BadIndex(n) => "BAD_IDX("@ + decimal(n as nat) + seq![')'],
    }
}

/// The name that stands in for a nameless symbol of a section: the name of
/// the section alone where the index refers to one, and the label of the
/// reference otherwise.
pub open spec fn section_name_or_label(target: SectionRefView) -> Seq<char> {
    match target {
        SectionRefView::Named { name, index } => name,
        _ => section_label(target),
    }
}

/// Resolves a section index against a section table.
pub fn resolve_section_index(index: usize, sections: &SectionTable) -> (target: SectionRef)
    ensures
        target@ == section_ref(index as int, sections@),
{
    if index == 0 {
        SectionRef::Unset
    } else if index < sections.len() {
        SectionRef::Named { name: sections.section_name(index), index }
    } else if index == sections.absolute {
        SectionRef::Absolute
    } else {
        SectionRef::BadIndex(index)
    }
}

impl SectionRef {
    /// The text shown for the reference.
    pub fn label(&self) -> (text: String)
        ensures
            text@ == section_label(self@),
    {
        proof {
            reveal_strlit("(");
            reveal_strlit(")");
        }
        match self {
            SectionRef::Unset => String::new(),
            SectionRef::Named { name, index } => {
                let mut text = name.clone();
                text.append("(");
                push_decimal(&mut text, *index as u64);
                text.append(")");
                assert(text@ =~= section_label(self@));
                text
            },
            SectionRef::Absolute => "ABS".to_owned(),
            SectionRef::BadIndex(n) => {
                let mut text = "BAD_IDX(".to_owned();
                push_decimal(&mut text, *n as u64);
                text.append(")");
                assert(text@ =~= section_label(self@));
                text
            },
        }
    }

    /// The name that stands in for a nameless symbol of the section.
    pub fn name_or_label(&self) -> (text: String)
        ensures
            text@ == section_name_or_label(self@),
    {
        match self {
            SectionRef::Named { name, index } => name.clone(),
            _ => self.label(),
        }
    }
}

/// The label of a section index: the composition of resolving and showing.
pub fn section_index_label(index: usize, sections: &SectionTable) -> (text: String)
    ensures
        text@ == section_label(section_ref(index as int, sections@)),
{
    resolve_section_index(index, sections).label()
}

/// Index zero is shown as nothing, whatever the table.
pub proof fn lemma_label_of_zero(sections: SectionTableView)
    ensures
        section_label(section_ref(0, sections)) == Seq::<char>::empty(),
{
}

/// The reserved index is shown as `ABS` wherever it lies outside the table
/// and is not zero.
pub proof fn lemma_label_of_absolute(sections: SectionTableView)
    requires
        sections.absolute >= sections.headers.len(),
        sections.absolute != 0,
    ensures
        section_label(section_ref(sections.absolute, sections)) == "ABS"@,
{
}

/// An index at or past the end of the table, other than zero and the
/// reserved index, is shown as `BAD_IDX(index)`.
pub proof fn lemma_label_of_bad_index(index: int, sections: SectionTableView)
    requires
        index >= sections.headers.len(),
        index != 0,
        index != sections.absolute,
    ensures
        section_label(section_ref(index, sections)) == "BAD_IDX("@ + decimal(index as nat) + seq![
            ')',
        ],
{
}

} // verus!
