//! Decode failures.

use vstd::prelude::*;

verus! {

/// The table fields that hold a tag out of a closed set.
#[derive(Clone, Copy, Debug, PartialEq, Eq, Hash, Structural)]
pub enum TagField {
    /// The type of a memory region.
    RegionType,
    /// The reliability of a memory region.
    Reliability,
    /// The hot-plug flag of a memory region.
    HotPlug,
    /// The usage type of a Call ID service group.
    UsageType,
    /// The buffer type of an ISA call table.
    BufferType,
}

/// Why a byte buffer is not the image of a table.
#[derive(Clone, Copy, Debug, PartialEq, Eq, Hash, Structural)]
pub enum DecodeError {
    /// The buffer holds fewer bytes than the table takes.
    BufferTooShort {
        /// The size of the table in bytes.
        needed: usize,
        /// The length of the buffer.
        available: usize,
    },
    /// A tag field holds a value outside its closed set: the table is
    /// corrupt or of a later version.
    UnknownTag {
        /// The field that holds the tag.
        field: TagField,
        /// The offset of the tag byte from the start of the table.
        offset: usize,
        /// The byte found there.
        value: u8,
    },
}

impl DecodeError {
    /// This error as seen from a table that holds the faulty record `base`
    /// bytes behind its own start: the offset of an unknown tag moves by
    /// `base`, and nothing else changes.
    pub open spec fn moved(self, base: int) -> DecodeError {
        match self {
            DecodeError::UnknownTag { field, offset, value } => DecodeError::UnknownTag {
                field,
                offset: (offset + base) as usize,
                value,
            },
            DecodeError::BufferTooShort { needed, available } => self,
        }
    }

    /// Moves the offset of an unknown tag by `base`.
    pub(crate) fn rebase(self, base: usize) -> (error: DecodeError)
        requires
            self matches DecodeError::UnknownTag { offset, .. } ==> offset + base <= usize::MAX,
        ensures
            error == self.moved(base as int),
    {
        match self {
            DecodeError::UnknownTag { field, offset, value } => DecodeError::UnknownTag {
                field,
                offset: offset + base,
                value,
            },
            DecodeError::BufferTooShort { needed, available } => self,
        }
    }
}

} // verus!
