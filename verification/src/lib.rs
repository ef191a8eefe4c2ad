//! Structural correlation for binary artifacts: byte ranges, the offsets they
//! contain, pattern search over raw file content, and symbol and relocation
//! cross-references.

pub mod correlate;
pub mod dynamic;
pub mod elf;
pub mod error;
pub mod flags;
pub mod locate;
pub mod macho;
pub mod names;
pub mod range;
pub mod relocation;
pub mod search;
pub mod section_index;
pub mod strtab;
pub mod symbol;
pub mod text;
