//! Named byte intervals of a binary file and the addresses they map to.

use vstd::prelude::*;

verus! {

/// The structural unit that a range stands for.
#[derive(Clone, Copy, Debug, PartialEq, Eq, Structural)]
pub enum RangeKind {
    Segment,
    Section,
    ProgramHeader,
    LoadCommand,
}

/// A named, typed byte interval `[file_offset, file_offset + file_size)` of a
/// file, with the virtual address of its first byte where it is mapped.
#[derive(Debug, PartialEq, Eq)]
pub struct Range {
    pub kind: RangeKind,
    pub name: String,
    pub file_offset: u64,
    pub file_size: u64,
    pub virtual_address: Option<u64>,
}

/// The mathematical value of a [`Range`].
pub struct RangeView {
    pub kind: RangeKind,
    pub name: Seq<char>,
    pub file_offset: u64,
    pub file_size: u64,
    pub virtual_address: Option<u64>,
}

/// The size of the 64-bit address space.
pub open spec fn address_space() -> int {
    0x1_0000_0000_0000_0000
}

impl RangeView {
    /// Whether `offset` lies in the half-open interval of the range. An empty
    /// range contains nothing.
    pub open spec fn contains(self, offset: u64) -> bool {
        self.file_offset <= offset < self.file_offset + self.file_size
    }

    /// The virtual address that `offset` maps to: the base of the range plus
    /// the displacement of `offset` within it, in 64-bit address arithmetic.
    /// A range without a mapping has none.
    pub open spec fn address_of(self, offset: u64) -> Option<u64> {
        match self.virtual_address {
            Some(base) => Some(((base + (offset - self.file_offset)) % address_space()) as u64),
            None => None,
        }
    }
}

impl View for Range {
    type V = RangeView;

    open spec fn view(&self) -> RangeView {
        RangeView {
            kind: self.kind,
            name: self.name@,
            file_offset: self.file_offset,
            file_size: self.file_size,
            virtual_address: self.virtual_address,
        }
    }
}

impl Range {
    /// Builds a range from its parts.
    pub fn new(
        kind: RangeKind,
        name: String,
        file_offset: u64,
        file_size: u64,
        virtual_address: Option<u64>,
    ) -> (r: Range)
        ensures
            r@ == (RangeView { kind, name: name@, file_offset, file_size, virtual_address }),
    {
        Range { kind, name, file_offset, file_size, virtual_address }
    }

    /// A copy of the range that owns its own name.
    pub fn duplicate(&self) -> (r: Range)
        ensures
            r@ == self@,
    {
        Range {
            kind: self.kind,
            name: self.name.clone(),
            file_offset: self.file_offset,
            file_size: self.file_size,
            virtual_address: self.virtual_address,
        }
    }

    /// Whether the range contains `offset`.
    pub fn contains(&self, offset: u64) -> (b: bool)
        ensures
            b == self@.contains(offset),
    {
        offset >= self.file_offset && offset - self.file_offset < self.file_size
    }

    /// The virtual address of `offset`, where the range is mapped.
    pub fn address_of(&self, offset: u64) -> (a: Option<u64>)
        ensures
            a == self@.address_of(offset),
    {
        match self.virtual_address {
            Some(base) => {
                let displacement: u64 = offset.wrapping_sub(self.file_offset);
                let address: u64 = base.wrapping_add(displacement);
                assert(address as int == (base + (offset - self.file_offset)) % address_space())
                    by {
                    assert(address_space() == u64::MAX + 1);
                    lemma_wrapped_address(base as int, offset as int, self.file_offset as int);
                }
                Some(address)
            },
            None => None,
        }
    }
}

/// Two wrapping steps in the address space amount to one reduction of the
/// exact sum.
proof fn lemma_wrapped_address(base: int, offset: int, start: int)
    requires
        0 <= base < address_space(),
        0 <= offset < address_space(),
        0 <= start < address_space(),
    ensures
        ({
            let d = if offset - start < 0 {
                offset - start + address_space()
            } else {
                offset - start
            };
            let a = if base + d >= address_space() {
                base + d - address_space()
            } else {
                base + d
            };
            a == (base + (offset - start)) % address_space()
        }),
{
}

/// Where the mapped image of a range fits below the top of the address
/// space, the address of a contained offset is the plain sum.
pub proof fn lemma_address_exact(r: RangeView, offset: u64)
    requires
        r.contains(offset),
        r.virtual_address is Some,
        r.virtual_address->0 + r.file_size <= address_space(),
    ensures
        r.address_of(offset) == Some((r.virtual_address->0 + (offset - r.file_offset)) as u64),
{
}

} // verus!
