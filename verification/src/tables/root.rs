//! The information index table (the root table).

use crate::error::DecodeError;
use crate::tables::header::{
    lemma_header_determines_image, lemma_image_determines_header, GeneralHeader,
    GENERAL_HEADER_SIZE,
};
use crate::wire::{grown_by, le_u16, lemma_le_u16_injective, push_array, push_u16, read_array, read_u16};
use vstd::prelude::*;

verus! {

/// The size in bytes of the root table.
pub const ROOT_TABLE_SIZE: usize = 40;

/// UBIOS information index table (the Root table).
///
/// | offset | size | field      |
/// |--------|------|------------|
/// | 0      | 32   | `header`   |
/// | 32     | 2    | `count`    |
/// | 34     | 6    | `reserved` |
#[derive(Clone, Debug, PartialEq, Eq, Hash)]
pub struct RootTable {
    /// The table header.
    pub header: GeneralHeader,
    /// Count of Object Description (OD) files.
    pub count: u16,
    /// Reserved field.
    pub reserved: [u8; 6],
}

impl RootTable {
    /// Whether the 40 bytes `image` hold this table.
    pub open spec fn is_image(self, image: Seq<u8>) -> bool {
        &&& image.len() == ROOT_TABLE_SIZE
        &&& self.header.is_image(image.subrange(0, GENERAL_HEADER_SIZE as int))
        &&& le_u16(image, 32) == self.count
        &&& image.subrange(34, 40) =~= self.reserved@
    }

    /// Reads the table at `bytes[at..at + 40]`.
    pub(crate) fn parse(bytes: &[u8], at: usize) -> (table: RootTable)
        requires
            at + ROOT_TABLE_SIZE <= bytes.len(),
        ensures
            table.is_image(bytes@.subrange(at as int, at + ROOT_TABLE_SIZE)),
    {
        let header = GeneralHeader::parse(bytes, at);
        assert(bytes@.subrange(at as int, at + ROOT_TABLE_SIZE).subrange(
            0,
            GENERAL_HEADER_SIZE as int,
        ) =~= bytes@.subrange(at as int, at + GENERAL_HEADER_SIZE));
        RootTable {
            header,
            count: read_u16(bytes, at + 32),
            reserved: read_array::<6>(bytes, at + 34),
        }
    }

    /// Appends the 40 bytes of this table.
    pub(crate) fn write(&self, out: &mut Vec<u8>)
        ensures
            grown_by(final(out)@, old(out)@, ROOT_TABLE_SIZE as int),
            self.is_image(
                final(out)@.subrange(old(out)@.len() as int, old(out)@.len() + ROOT_TABLE_SIZE),
            ),
    {
        let ghost start = out@.len() as int;
        self.header.write(out);
        let ghost with_header = out@;
        push_u16(out, self.count);
        push_array::<6>(out, &self.reserved);
        assert(out@.subrange(start, start + ROOT_TABLE_SIZE).subrange(
            0,
            GENERAL_HEADER_SIZE as int,
        ) =~= with_header.subrange(start, start + GENERAL_HEADER_SIZE));
    }

    /// Decodes the root table at the start of `bytes`.
    ///
    /// Fails when `bytes` holds fewer than 40 bytes, and only then.
    pub fn decode(bytes: &[u8]) -> (decoded: Result<RootTable, DecodeError>)
        ensures
            match decoded {
                Ok(table) => bytes@.len() >= ROOT_TABLE_SIZE && table.is_image(
                    bytes@.subrange(0, ROOT_TABLE_SIZE as int),
                ),
                Err(error) => bytes@.len() < ROOT_TABLE_SIZE && error == (
                DecodeError::BufferTooShort {
                    needed: ROOT_TABLE_SIZE,
                    available: bytes@.len() as usize,
                }),
            },
    {
        if bytes.len() < ROOT_TABLE_SIZE {
            return Err(
                DecodeError::BufferTooShort { needed: ROOT_TABLE_SIZE, available: bytes.len() },
            );
        }
        Ok(RootTable::parse(bytes, 0))
    }

    /// Encodes this table as its 40 bytes.
    pub fn encode(&self) -> (image: Vec<u8>)
        ensures
            self.is_image(image@),
    {
        let mut image: Vec<u8> = Vec::new();
        self.write(&mut image);
        assert(image@.subrange(0, ROOT_TABLE_SIZE as int) =~= image@);
        image
    }
}

/// No 40 bytes hold two root tables: what `decode` returns for the bytes
/// that `encode` made of a table is that table.
pub proof fn lemma_image_determines_root_table(a: RootTable, b: RootTable, image: Seq<u8>)
    requires
        a.is_image(image),
        b.is_image(image),
    ensures
        a == b,
{
    lemma_image_determines_header(a.header, b.header, image.subrange(0, 32));
    assert(a.reserved =~= b.reserved);
}

/// No root table has two images: what `encode` makes of a decoded table is
/// the 40 bytes that it was decoded from, reserved bytes included.
pub proof fn lemma_root_table_determines_image(table: RootTable, a: Seq<u8>, b: Seq<u8>)
    requires
        table.is_image(a),
        table.is_image(b),
    ensures
        a == b,
{
    lemma_header_determines_image(table.header, a.subrange(0, 32), b.subrange(0, 32));
    lemma_le_u16_injective(a, 32, b, 32);
    assert forall|k: int| 0 <= k < 40 implies a[k] == b[k] by {
        if k < 32 {
            assert(a.subrange(0, 32)[k] == b.subrange(0, 32)[k]);
        } else if 34 <= k {
            assert(a.subrange(34, 40)[k - 34] == b.subrange(34, 40)[k - 34]);
        }
    }
    assert(a =~= b);
}

} // verus!
