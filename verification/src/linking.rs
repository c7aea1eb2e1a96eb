//! Relocation entries: the places in the code that a linker rewrites.

use vstd::prelude::*;

verus! {

/// Kinds of relocation whose target is an index into one of the module's
/// index spaces.
#[derive(Clone, Copy, Debug, PartialEq, Eq, Structural)]
pub enum IndexRelocType {
    /// A function index, as unsigned LEB128 padded to five bytes: the
    /// immediate of a `call`.
    FunctionIndexLeb,
    /// A function-table index, as signed LEB128 padded to five bytes.
    TableIndexSleb,
    /// A function-table index, as four plain bytes.
    TableIndexI32,
    /// A type index, as unsigned LEB128 padded to five bytes.
    TypeIndexLeb,
    /// A global index, as unsigned LEB128 padded to five bytes.
    GlobalIndexLeb,
}

/// Kinds of relocation whose target is an address or an offset.
#[derive(Clone, Copy, Debug, PartialEq, Eq, Structural)]
pub enum OffsetRelocType {
    /// A linear-memory address, as unsigned LEB128 padded to five bytes: the
    /// offset immediate of a load or store.
    MemoryAddrLeb,
    /// A linear-memory address, as signed LEB128 padded to five bytes: the
    /// immediate of an `i32.const`.
    MemoryAddrSleb,
    /// A linear-memory address, as four plain bytes.
    MemoryAddrI32,
}

/// One place that the linker rewrites. `offset` counts bytes: while a function
/// is being built, from the start of its instruction bytes; once serialized,
/// from the start of the code section's body.
#[allow(inconsistent_fields)]
#[derive(Clone, Copy, Debug, PartialEq, Eq, Structural)]
pub enum RelocationEntry {
    Index { type_id: IndexRelocType, offset: u32, symbol_index: u32 },
    Offset { type_id: OffsetRelocType, offset: u32, symbol_index: u32, addend: i32 },
}

impl RelocationEntry {
    /// Where the rewritten bytes start.
    pub open spec fn spec_offset(self) -> u32 {
        match self {
            RelocationEntry::Index { offset, .. } => offset,
            RelocationEntry::Offset { offset, .. } => offset,
        }
    }

    /// The same entry at another place.
    pub open spec fn spec_with_offset(self, new_offset: u32) -> RelocationEntry {
        match self {
            RelocationEntry::Index { type_id, symbol_index, .. } => {
                RelocationEntry::Index { type_id, offset: new_offset, symbol_index }
            },
            RelocationEntry::Offset { type_id, symbol_index, addend, .. } => {
                RelocationEntry::Offset { type_id, offset: new_offset, symbol_index, addend }
            },
        }
    }

    /// Where the rewritten bytes start.
    #[verifier::when_used_as_spec(spec_offset)]
    pub fn offset(self) -> (offset: u32)
        ensures
            offset == self.spec_offset(),
    {
        match self {
            RelocationEntry::Index { offset, .. } => offset,
            RelocationEntry::Offset { offset, .. } => offset,
        }
    }

    /// The same entry at another place.
    #[verifier::when_used_as_spec(spec_with_offset)]
    pub fn with_offset(self, new_offset: u32) -> (moved: RelocationEntry)
        ensures
            moved == self.spec_with_offset(new_offset),
    {
        match self {
            RelocationEntry::Index { type_id, symbol_index, .. } => {
                RelocationEntry::Index { type_id, offset: new_offset, symbol_index }
            },
            RelocationEntry::Offset { type_id, symbol_index, addend, .. } => {
                RelocationEntry::Offset { type_id, offset: new_offset, symbol_index, addend }
            },
        }
    }
}

} // verus!
