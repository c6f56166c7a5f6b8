//! The header that every table begins with.

use crate::error::DecodeError;
use crate::wire::{
    grown_by, le_u32, lemma_le_u32_injective, push_array, push_u32, read_array, read_u32,
};
use vstd::prelude::*;

verus! {

/// The size in bytes of a table header.
pub const GENERAL_HEADER_SIZE: usize = 32;

/// The header at offset 0 of every table.
///
/// | offset | size | field         |
/// |--------|------|---------------|
/// | 0      | 16   | `name`        |
/// | 16     | 4    | `size`        |
/// | 20     | 1    | `version`     |
/// | 21     | 3    | `reserved`    |
/// | 24     | 4    | `remain_size` |
/// | 28     | 4    | `checksum`    |
#[derive(Clone, Debug, PartialEq, Eq, Hash)]
pub struct GeneralHeader {
    /// Table name.
    pub name: [u8; 16],
    /// Total size, including this table header.
    pub size: u32,
    /// Version field.
    pub version: u8,
    /// Reserved field.
    pub reserved: [u8; 3],
    /// Remaining size of all table.
    pub remain_size: u32,
    /// Checksum. How it is computed is not this library's matter: the field
    /// is carried as found.
    pub checksum: u32,
}

impl GeneralHeader {
    /// Whether the 32 bytes `image` hold this header.
    pub open spec fn is_image(self, image: Seq<u8>) -> bool {
        &&& image.len() == GENERAL_HEADER_SIZE
        &&& image.subrange(0, 16) =~= self.name@
        &&& le_u32(image, 16) == self.size
        &&& image[20] == self.version
        &&& image.subrange(21, 24) =~= self.reserved@
        &&& le_u32(image, 24) == self.remain_size
        &&& le_u32(image, 28) == self.checksum
    }

    /// Reads the header at `bytes[at..at + 32]`.
    pub(crate) fn parse(bytes: &[u8], at: usize) -> (header: GeneralHeader)
        requires
            at + GENERAL_HEADER_SIZE <= bytes.len(),
        ensures
            header.is_image(bytes@.subrange(at as int, at + GENERAL_HEADER_SIZE)),
    {
        GeneralHeader {
            name: read_array::<16>(bytes, at),
            size: read_u32(bytes, at + 16),
            version: bytes[at + 20],
            reserved: read_array::<3>(bytes, at + 21),
            remain_size: read_u32(bytes, at + 24),
            checksum: read_u32(bytes, at + 28),
        }
    }

    /// Appends the 32 bytes of this header.
    pub(crate) fn write(&self, out: &mut Vec<u8>)
        ensures
            grown_by(final(out)@, old(out)@, GENERAL_HEADER_SIZE as int),
            self.is_image(
                final(out)@.subrange(
                    old(out)@.len() as int,
                    old(out)@.len() + GENERAL_HEADER_SIZE,
                ),
            ),
    {
        push_array::<16>(out, &self.name);
        push_u32(out, self.size);
        out.push(self.version);
        push_array::<3>(out, &self.reserved);
        push_u32(out, self.remain_size);
        push_u32(out, self.checksum);
    }

    /// Decodes the header at the start of `bytes`.
    ///
    /// Fails when `bytes` holds fewer than 32 bytes, and only then.
    pub fn decode(bytes: &[u8]) -> (decoded: Result<GeneralHeader, DecodeError>)
        ensures
            match decoded {
                Ok(header) => bytes@.len() >= GENERAL_HEADER_SIZE && header.is_image(
                    bytes@.subrange(0, GENERAL_HEADER_SIZE as int),
                ),
                Err(error) => bytes@.len() < GENERAL_HEADER_SIZE && error == (
                DecodeError::BufferTooShort {
                    needed: GENERAL_HEADER_SIZE,
                    available: bytes@.len() as usize,
                }),
            },
    {
        if bytes.len() < GENERAL_HEADER_SIZE {
            return Err(
                DecodeError::BufferTooShort {
                    needed: GENERAL_HEADER_SIZE,
                    available: bytes.len(),
                },
            );
        }
        Ok(GeneralHeader::parse(bytes, 0))
    }

    /// Encodes this header as its 32 bytes.
    pub fn encode(&self) -> (image: Vec<u8>)
        ensures
            self.is_image(image@),
    {
        let mut image: Vec<u8> = Vec::new();
        self.write(&mut image);
        assert(image@.subrange(0, GENERAL_HEADER_SIZE as int) =~= image@);
        image
    }
}

/// No 32 bytes hold two headers: what `decode` returns for the bytes that
/// `encode` made of a header is that header.
pub proof fn lemma_image_determines_header(a: GeneralHeader, b: GeneralHeader, image: Seq<u8>)
    requires
        a.is_image(image),
        b.is_image(image),
    ensures
        a == b,
{
    assert(a.name =~= b.name);
    assert(a.reserved =~= b.reserved);
}

/// No header has two images: what `encode` makes of a decoded header is the
/// 32 bytes that it was decoded from, reserved bytes included.
pub proof fn lemma_header_determines_image(header: GeneralHeader, a: Seq<u8>, b: Seq<u8>)
    requires
        header.is_image(a),
        header.is_image(b),
    ensures
        a == b,
{
    lemma_le_u32_injective(a, 16, b, 16);
    lemma_le_u32_injective(a, 24, b, 24);
    lemma_le_u32_injective(a, 28, b, 28);
    assert forall|k: int| 0 <= k < 32 implies a[k] == b[k] by {
        if k < 16 {
            assert(a.subrange(0, 16)[k] == b.subrange(0, 16)[k]);
        } else if 21 <= k < 24 {
            assert(a.subrange(21, 24)[k - 21] == b.subrange(21, 24)[k - 21]);
        }
    }
    assert(a =~= b);
}

} // verus!
