//! The ISA call table.

use crate::error::{DecodeError, TagField};
use crate::tables::header::{
    lemma_header_determines_image, lemma_image_determines_header, GeneralHeader,
    GENERAL_HEADER_SIZE,
};
use crate::wire::{push_array, read_array};
use vstd::prelude::*;

verus! {

/// The size in bytes of the ISA call table.
pub const ISA_CALL_TABLE_SIZE: usize = 36;

/// The ISA call header field.
#[derive(Clone, Debug, PartialEq, Eq, Hash)]
pub struct IsaCallHeader(pub GeneralHeader);

/// The ISA call buffer type.
#[derive(Clone, Copy, Debug, PartialEq, Eq, Hash, Structural)]
pub enum IsaCallBufferType {
    /// The buffer of a UVB window (tag 2).
    Uvb,
}

impl IsaCallBufferType {
    /// The tag byte of this buffer type.
    pub open spec fn tag_of(self) -> u8 {
        2
    }

    /// Whether `byte` is the tag of a buffer type.
    pub open spec fn is_tag(byte: u8) -> bool {
        byte == 2
    }

    /// The tag byte of this buffer type.
    pub fn tag(self) -> (byte: u8)
        ensures
            byte == self.tag_of(),
            Self::is_tag(byte),
    {
        2
    }

    /// The buffer type with tag `byte`, if there is one.
    pub fn from_tag(byte: u8) -> (kind: Option<IsaCallBufferType>)
        ensures
            match kind {
                Some(k) => Self::is_tag(byte) && k.tag_of() == byte,
                None => !Self::is_tag(byte),
            },
    {
        if byte == 2 {
            Some(IsaCallBufferType::Uvb)
        } else {
            None
        }
    }
}

/// UBIOS ISA call table.
///
/// | offset | size | field          |
/// |--------|------|----------------|
/// | 0      | 32   | `header`       |
/// | 32     | 1    | `buffer_type`  |
/// | 33     | 1    | `buffer_index` |
/// | 34     | 2    | `reserved`     |
#[derive(Clone, Debug, PartialEq, Eq, Hash)]
pub struct IsaCallTable {
    /// The ISA Call header field.
    pub header: IsaCallHeader,
    /// Indicates the buffer type used when transferring data via the ISA call.
    pub buffer_type: IsaCallBufferType,
    /// The index of the buffer, with the meaning of the index of a Call ID
    /// service group.
    pub buffer_index: u8,
    /// Reserved field.
    pub reserved: [u8; 2],
}

impl IsaCallTable {
    /// Whether the 36 bytes `image` hold this table.
    pub open spec fn is_image(self, image: Seq<u8>) -> bool {
        &&& image.len() == ISA_CALL_TABLE_SIZE
        &&& self.header.0.is_image(image.subrange(0, GENERAL_HEADER_SIZE as int))
        &&& image[32] == self.buffer_type.tag_of()
        &&& image[33] == self.buffer_index
        &&& image.subrange(34, 36) =~= self.reserved@
    }

    /// The unknown buffer type tag of `image`; `None` when the tag is known.
    pub open spec fn tag_fault(image: Seq<u8>) -> Option<DecodeError> {
        if !IsaCallBufferType::is_tag(image[32]) {
            Some(DecodeError::UnknownTag { field: TagField::BufferType, offset: 32, value: image[32] })
        } else {
            None
        }
    }

    /// Decodes the ISA call table at the start of `bytes`.
    ///
    /// Fails when `bytes` holds fewer than 36 bytes, and else when the buffer
    /// type tag is unknown.
    pub fn decode(bytes: &[u8]) -> (decoded: Result<IsaCallTable, DecodeError>)
        ensures
            match decoded {
                Ok(table) => bytes@.len() >= ISA_CALL_TABLE_SIZE && Self::tag_fault(
                    bytes@.subrange(0, ISA_CALL_TABLE_SIZE as int),
                ) is None && table.is_image(bytes@.subrange(0, ISA_CALL_TABLE_SIZE as int)),
                Err(error) => if bytes@.len() < ISA_CALL_TABLE_SIZE {
                    error == (DecodeError::BufferTooShort {
                        needed: ISA_CALL_TABLE_SIZE,
                        available: bytes@.len() as usize,
                    })
                } else {
                    Self::tag_fault(bytes@.subrange(0, ISA_CALL_TABLE_SIZE as int)) == Some(error)
                },
            },
    {
        if bytes.len() < ISA_CALL_TABLE_SIZE {
            return Err(
                DecodeError::BufferTooShort {
                    needed: ISA_CALL_TABLE_SIZE,
                    available: bytes.len(),
                },
            );
        }
        let buffer_type = match IsaCallBufferType::from_tag(bytes[32]) {
            Some(kind) => kind,
            None => {
                return Err(
                    DecodeError::UnknownTag {
                        field: TagField::BufferType,
                        offset: 32,
                        value: bytes[32],
                    },
                );
            },
        };
        let header = IsaCallHeader(GeneralHeader::parse(bytes, 0));
        assert(bytes@.subrange(0, ISA_CALL_TABLE_SIZE as int).subrange(
            0,
            GENERAL_HEADER_SIZE as int,
        ) =~= bytes@.subrange(0, GENERAL_HEADER_SIZE as int));
        Ok(
            IsaCallTable {
                header,
                buffer_type,
                buffer_index: bytes[33],
                reserved: read_array::<2>(bytes, 34),
            },
        )
    }

    /// Encodes this table as its 36 bytes.
    pub fn encode(&self) -> (image: Vec<u8>)
        ensures
            self.is_image(image@),
    {
        let mut image: Vec<u8> = Vec::new();
        self.header.0.write(&mut image);
        let ghost header_image = image@;
        image.push(self.buffer_type.tag());
        image.push(self.buffer_index);
        push_array::<2>(&mut image, &self.reserved);
        assert(image@.subrange(0, GENERAL_HEADER_SIZE as int) =~= header_image.subrange(
            0,
            GENERAL_HEADER_SIZE as int,
        ));
        image
    }
}

/// No 36 bytes hold two ISA call tables: what `decode` returns for the bytes
/// that `encode` made of a table is that table.
pub proof fn lemma_image_determines_isa_call_table(
    a: IsaCallTable,
    b: IsaCallTable,
    image: Seq<u8>,
)
    requires
        a.is_image(image),
        b.is_image(image),
    ensures
        a == b,
{
    lemma_image_determines_header(a.header.0, b.header.0, image.subrange(0, 32));
    assert(a.reserved =~= b.reserved);
}

/// No ISA call table has two images: what `encode` makes of a decoded table
/// is the 36 bytes that it was decoded from, reserved bytes included.
pub proof fn lemma_isa_call_table_determines_image(table: IsaCallTable, a: Seq<u8>, b: Seq<u8>)
    requires
        table.is_image(a),
        table.is_image(b),
    ensures
        a == b,
{
    lemma_header_determines_image(table.header.0, a.subrange(0, 32), b.subrange(0, 32));
    assert forall|k: int| 0 <= k < 36 implies a[k] == b[k] by {
        if k < 32 {
            assert(a.subrange(0, 32)[k] == b.subrange(0, 32)[k]);
        } else if 34 <= k {
            assert(a.subrange(34, 36)[k - 34] == b.subrange(34, 36)[k - 34]);
        }
    }
    assert(a =~= b);
}

} // verus!
