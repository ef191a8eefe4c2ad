//! String tables: runs of bytes, each ended by a zero byte, that the other
//! tables of a file point into by byte offset.

use scroll::ctx::StrCtx;
use scroll::Pread;
use vstd::prelude::*;
use vstd::slice::{slice_subrange, slice_to_vec};
use vstd::utf8::{decode_utf8, valid_utf8};
use crate::error::InputError;

verus! {

/// The number of bytes from `offset` up to the next zero byte, or up to the
/// end of the table where no zero byte follows.
pub open spec fn name_len(bytes: Seq<u8>, offset: int) -> nat
    decreases bytes.len() - offset,
{
    if 0 <= offset < bytes.len() && bytes[offset] != 0 {
        1 + name_len(bytes, offset + 1)
    } else {
        0
    }
}

/// The bytes of the name that starts at `offset`.
pub open spec fn name_bytes(bytes: Seq<u8>, offset: int) -> Seq<u8> {
    bytes.subrange(offset, offset + name_len(bytes, offset))
}

/// The name that starts at `offset`. There is none where `offset` lies
/// beyond the end of the table or the bytes of the name are not UTF-8. At
/// the very end of the table stands the empty name.
pub open spec fn name_at(bytes: Seq<u8>, offset: int) -> Option<Seq<char>> {
    if 0 <= offset <= bytes.len() && valid_utf8(name_bytes(bytes, offset)) {
        Some(decode_utf8(name_bytes(bytes, offset)))
    } else {
        None
    }
}

/// The characters of a text that may be missing.
pub open spec fn text_of(text: Option<String>) -> Option<Seq<char>> {
    match text {
        Some(s) => Some(s@),
        None => None,
    }
}

/// The placeholder shown for a name whose bytes cannot be read.
pub open spec fn unreadable() -> Seq<char> {
    "<unreadable>"@
}

/// The name at `offset`, or the placeholder where there is none.
pub open spec fn name_or_unreadable(bytes: Seq<u8>, offset: int) -> Seq<char> {
    match name_at(bytes, offset) {
        Some(name) => name,
        None => unreadable(),
    }
}

/// `scroll::Pread::pread_with` for `&str` with `StrCtx::Delimiter(0)`: it
/// fails where `offset` is greater than the length of `bytes`; otherwise it
/// takes the bytes from `offset` up to the first zero byte, or to the end,
/// and hands them to `core::str::from_utf8`, failing where that fails. The
/// contract takes vstd's `valid_utf8` and `decode_utf8` as the account of
/// what `from_utf8` accepts and yields.
#[verifier::external_body]
pub(crate) fn read_name(bytes: &[u8], offset: usize) -> (name: Option<String>)
    ensures
        text_of(name) == name_at(bytes@, offset as int),
{
    match bytes.pread_with::<&str>(offset, StrCtx::Delimiter(0)) {
        Ok(text) => Some(text.to_string()),
        Err(_) => None,
    }
}

/// The raw bytes of one string table.
#[derive(Debug, PartialEq, Eq)]
pub struct StringTable {
    pub bytes: Vec<u8>,
}

impl View for StringTable {
    type V = Seq<u8>;

    open spec fn view(&self) -> Seq<u8> {
        self.bytes@
    }
}

impl StringTable {
    /// A table of the given bytes.
    pub fn new(bytes: Vec<u8>) -> (table: StringTable)
        ensures
            table@ == bytes@,
    {
        StringTable { bytes }
    }

    /// The table that a file declares at `offset` with `size` bytes. A file
    /// too short to hold it is rejected.
    pub fn from_file(file: &[u8], offset: u64, size: u64) -> (r: Result<StringTable, InputError>)
        ensures
            offset + size <= file@.len() <==> r is Ok,
            r matches Ok(table) ==> table@ == file@.subrange(offset as int, offset + size),
            r matches Err(e) ==> e == InputError::TableOutOfFile,
    {
        let len: usize = file.len();
        if offset > len as u64 || size > len as u64 - offset {
            return Err(InputError::TableOutOfFile);
        }
        let start: usize = offset as usize;
        let end: usize = start + size as usize;
        Ok(StringTable { bytes: slice_to_vec(slice_subrange(file, start, end)) })
    }

    /// The number of bytes in the table.
    pub fn len(&self) -> (n: usize)
        ensures
            n == self@.len(),
    {
        self.bytes.len()
    }

    /// The name that starts at `offset`, if there is one.
    pub fn name_at(&self, offset: usize) -> (name: Option<String>)
        ensures
            text_of(name) == name_at(self@, offset as int),
    {
        read_name(self.bytes.as_slice(), offset)
    }

    /// The name that starts at `offset`, or the placeholder `<unreadable>`
    /// where there is none.
    pub fn name_or_unreadable(&self, offset: usize) -> (name: String)
        ensures
            name@ == name_or_unreadable(self@, offset as int),
    {
        match self.name_at(offset) {
            Some(name) => name,
            None => "<unreadable>".to_owned(),
        }
    }
}

} // verus!
