//! The memory map table and its region entries.

use crate::error::{DecodeError, TagField};
use crate::tables::header::{
    lemma_header_determines_image, lemma_image_determines_header, GeneralHeader,
    GENERAL_HEADER_SIZE,
};
use crate::wire::{
    grown_by, le_u64, lemma_le_u64_injective, push_array, push_u64, read_array, read_u64,
};
use vstd::prelude::*;

verus! {

/// The size in bytes of a memory map region entry.
pub const MEMORY_MAP_REGION_SIZE: usize = 24;

/// UBIOS memory region type.
#[derive(Clone, Copy, Debug, PartialEq, Eq, Hash, Structural)]
pub enum MemoryRegionType {
    /// Unused Memory (tag 0).
    Free,
    /// Efficient Memory, as Free Memory after READ (tag 1).
    Data,
    /// Receiver Code (tag 2).
    Code,
    /// Using between Reporter and Receiver (tag 3).
    Shared,
    /// Reserved Memory, cannot use (tag 4).
    Reserved,
    /// Cannot Use (tag 5).
    Disabled,
    /// Device Memory, cannot be added to normal Memory (tag 6).
    Device,
}

impl MemoryRegionType {
    /// The tag byte of this region type.
    pub open spec fn tag_of(self) -> u8 {
        match self {
            MemoryRegionType::Free => 0,
            MemoryRegionType::Data => 1,
            MemoryRegionType::Code => 2,
            MemoryRegionType::Shared => 3,
            MemoryRegionType::Reserved => 4,
            MemoryRegionType::Disabled => 5,
            MemoryRegionType::Device => 6,
        }
    }

    /// Whether `byte` is the tag of a region type.
    pub open spec fn is_tag(byte: u8) -> bool {
        byte <= 6
    }

    /// The tag byte of this region type.
    pub fn tag(self) -> (byte: u8)
        ensures
            byte == self.tag_of(),
            Self::is_tag(byte),
    {
        match self {
            MemoryRegionType::Free => 0,
            MemoryRegionType::Data => 1,
            MemoryRegionType::Code => 2,
            MemoryRegionType::Shared => 3,
            MemoryRegionType::Reserved => 4,
            MemoryRegionType::Disabled => 5,
            MemoryRegionType::Device => 6,
        }
    }

    /// The region type with tag `byte`, if there is one.
    pub fn from_tag(byte: u8) -> (kind: Option<MemoryRegionType>)
        ensures
            match kind {
                Some(k) => Self::is_tag(byte) && k.tag_of() == byte,
                None => !Self::is_tag(byte),
            },
    {
        match byte {
            0 => Some(MemoryRegionType::Free),
            1 => Some(MemoryRegionType::Data),
            2 => Some(MemoryRegionType::Code),
            3 => Some(MemoryRegionType::Shared),
            4 => Some(MemoryRegionType::Reserved),
            5 => Some(MemoryRegionType::Disabled),
            6 => Some(MemoryRegionType::Device),
            _ => None,
        }
    }
}

/// UBIOS memory reliability.
#[derive(Clone, Copy, Debug, PartialEq, Eq, Hash, Structural)]
pub enum MemoryReliability {
    /// Most of the DDRs are normal reliability (tag 0).
    Normal,
    /// Higher reliability (tag 1).
    High,
    /// Lower reliability (tag -1, the byte `0xFF`).
    Low,
}

impl MemoryReliability {
    /// The tag byte of this reliability.
    pub open spec fn tag_of(self) -> u8 {
        match self {
            MemoryReliability::Normal => 0,
            MemoryReliability::High => 1,
            MemoryReliability::Low => 0xFF,
        }
    }

    /// Whether `byte` is the tag of a reliability.
    pub open spec fn is_tag(byte: u8) -> bool {
        byte == 0 || byte == 1 || byte == 0xFF
    }

    /// The tag byte of this reliability.
    pub fn tag(self) -> (byte: u8)
        ensures
            byte == self.tag_of(),
            Self::is_tag(byte),
    {
        match self {
            MemoryReliability::Normal => 0,
            MemoryReliability::High => 1,
            MemoryReliability::Low => 0xFF,
        }
    }

    /// The reliability with tag `byte`, if there is one.
    pub fn from_tag(byte: u8) -> (kind: Option<MemoryReliability>)
        ensures
            match kind {
                Some(k) => Self::is_tag(byte) && k.tag_of() == byte,
                None => !Self::is_tag(byte),
            },
    {
        match byte {
            0 => Some(MemoryReliability::Normal),
            1 => Some(MemoryReliability::High),
            0xFF => Some(MemoryReliability::Low),
            _ => None,
        }
    }
}

/// The byte that stands for a flag: 1 when set, 0 when clear.
pub open spec fn flag_byte(flag: bool) -> u8 {
    if flag {
        1
    } else {
        0
    }
}

/// UBIOS memory map region table.
///
/// | offset | size | field         |
/// |--------|------|---------------|
/// | 0      | 8    | `base`        |
/// | 8      | 8    | `size`        |
/// | 16     | 1    | `region_type` |
/// | 17     | 1    | `reliability` |
/// | 18     | 1    | `hot_plug`    |
/// | 19     | 5    | `reserved`    |
#[derive(Clone, Copy, Debug, PartialEq, Eq, Hash)]
pub struct MemoryMapRegionTable {
    /// Base address of the memory region (must be the physical address).
    pub base: u64,
    /// Size of the memory region.
    pub size: u64,
    /// Memory Region Type.
    pub region_type: MemoryRegionType,
    /// Memory Reliability.
    pub reliability: MemoryReliability,
    /// Hot Plug Support.
    pub hot_plug: bool,
    /// Reserved field.
    pub reserved: [u8; 5],
}

impl MemoryMapRegionTable {
    /// Whether the 24 bytes `image` hold this region entry.
    pub open spec fn is_image(self, image: Seq<u8>) -> bool {
        &&& image.len() == MEMORY_MAP_REGION_SIZE
        &&& le_u64(image, 0) == self.base
        &&& le_u64(image, 8) == self.size
        &&& image[16] == self.region_type.tag_of()
        &&& image[17] == self.reliability.tag_of()
        &&& image[18] == flag_byte(self.hot_plug)
        &&& image.subrange(19, 24) =~= self.reserved@
    }

    /// The first tag of `image`, in the order of the offsets, that is outside
    /// its closed set; `None` when all three tags are known.
    pub open spec fn tag_fault(image: Seq<u8>) -> Option<DecodeError> {
        if !MemoryRegionType::is_tag(image[16]) {
            Some(DecodeError::UnknownTag { field: TagField::RegionType, offset: 16, value: image[16] })
        } else if !MemoryReliability::is_tag(image[17]) {
            Some(
                DecodeError::UnknownTag { field: TagField::Reliability, offset: 17, value: image[17] },
            )
        } else if image[18] > 1 {
            Some(DecodeError::UnknownTag { field: TagField::HotPlug, offset: 18, value: image[18] })
        } else {
            None
        }
    }

    /// Reads the region entry at `bytes[at..at + 24]`.
    pub(crate) fn parse(bytes: &[u8], at: usize) -> (parsed: Result<
        MemoryMapRegionTable,
        DecodeError,
    >)
        requires
            at + MEMORY_MAP_REGION_SIZE <= bytes.len(),
        ensures
            match parsed {
                Ok(region) => Self::tag_fault(
                    bytes@.subrange(at as int, at + MEMORY_MAP_REGION_SIZE),
                ) is None && region.is_image(
                    bytes@.subrange(at as int, at + MEMORY_MAP_REGION_SIZE),
                ),
                Err(error) => Self::tag_fault(
                    bytes@.subrange(at as int, at + MEMORY_MAP_REGION_SIZE),
                ) == Some(error),
            },
    {
        let region_type = match MemoryRegionType::from_tag(bytes[at + 16]) {
            Some(kind) => kind,
            None => {
                return Err(
                    DecodeError::UnknownTag {
                        field: TagField::RegionType,
                        offset: 16,
                        value: bytes[at + 16],
                    },
                );
            },
        };
        let reliability = match MemoryReliability::from_tag(bytes[at + 17]) {
            Some(kind) => kind,
            None => {
                return Err(
                    DecodeError::UnknownTag {
                        field: TagField::Reliability,
                        offset: 17,
                        value: bytes[at + 17],
                    },
                );
            },
        };
        let hot_plug_byte: u8 = bytes[at + 18];
        if hot_plug_byte > 1 {
            return Err(
                DecodeError::UnknownTag {
                    field: TagField::HotPlug,
                    offset: 18,
                    value: hot_plug_byte,
                },
            );
        }
        Ok(
            MemoryMapRegionTable {
                base: read_u64(bytes, at),
                size: read_u64(bytes, at + 8),
                region_type,
                reliability,
                hot_plug: hot_plug_byte == 1,
                reserved: read_array::<5>(bytes, at + 19),
            },
        )
    }

    /// Appends the 24 bytes of this region entry.
    pub(crate) fn write(&self, out: &mut Vec<u8>)
        ensures
            grown_by(final(out)@, old(out)@, MEMORY_MAP_REGION_SIZE as int),
            self.is_image(
                final(out)@.subrange(
                    old(out)@.len() as int,
                    old(out)@.len() + MEMORY_MAP_REGION_SIZE,
                ),
            ),
    {
        push_u64(out, self.base);
        push_u64(out, self.size);
        out.push(self.region_type.tag());
        out.push(self.reliability.tag());
        out.push(
            if self.hot_plug {
                1
            } else {
                0
            },
        );
        push_array::<5>(out, &self.reserved);
    }

    /// Decodes the region entry at the start of `bytes`.
    ///
    /// Fails when `bytes` holds fewer than 24 bytes, and else when one of the
    /// three tags is unknown; the error tells the first such tag.
    pub fn decode(bytes: &[u8]) -> (decoded: Result<MemoryMapRegionTable, DecodeError>)
        ensures
            match decoded {
                Ok(region) => bytes@.len() >= MEMORY_MAP_REGION_SIZE && Self::tag_fault(
                    bytes@.subrange(0, MEMORY_MAP_REGION_SIZE as int),
                ) is None && region.is_image(bytes@.subrange(0, MEMORY_MAP_REGION_SIZE as int)),
                Err(error) => if bytes@.len() < MEMORY_MAP_REGION_SIZE {
                    error == (DecodeError::BufferTooShort {
                        needed: MEMORY_MAP_REGION_SIZE,
                        available: bytes@.len() as usize,
                    })
                } else {
                    Self::tag_fault(bytes@.subrange(0, MEMORY_MAP_REGION_SIZE as int)) == Some(
                        error,
                    )
                },
            },
    {
        if bytes.len() < MEMORY_MAP_REGION_SIZE {
            return Err(
                DecodeError::BufferTooShort {
                    needed: MEMORY_MAP_REGION_SIZE,
                    available: bytes.len(),
                },
            );
        }
        MemoryMapRegionTable::parse(bytes, 0)
    }

    /// Encodes this region entry as its 24 bytes.
    pub fn encode(&self) -> (image: Vec<u8>)
        ensures
            self.is_image(image@),
    {
        let mut image: Vec<u8> = Vec::new();
        self.write(&mut image);
        assert(image@.subrange(0, MEMORY_MAP_REGION_SIZE as int) =~= image@);
        image
    }
}

/// UBIOS memory map table: the table header and, behind it, the region
/// entries one after the other.
///
/// | offset      | size | field        |
/// |-------------|------|--------------|
/// | 0           | 32   | `header`     |
/// | 32 + 24 * i | 24   | `regions[i]` |
#[derive(Clone, Debug, PartialEq, Eq, Hash)]
pub struct MemoryMapTable {
    /// The table header.
    pub header: GeneralHeader,
    /// The memory regions, in the order of the table.
    pub regions: Vec<MemoryMapRegionTable>,
}

impl MemoryMapTable {
    /// The size in bytes of a memory map table with `regions` region entries.
    pub open spec fn size_with(regions: int) -> int {
        GENERAL_HEADER_SIZE + MEMORY_MAP_REGION_SIZE * regions
    }

    /// The bytes of region entry `index` in the image of a table.
    pub open spec fn region_image(image: Seq<u8>, index: int) -> Seq<u8> {
        image.subrange(
            GENERAL_HEADER_SIZE + MEMORY_MAP_REGION_SIZE * index,
            GENERAL_HEADER_SIZE + MEMORY_MAP_REGION_SIZE * (index + 1),
        )
    }

    /// Whether `image` holds this table.
    pub open spec fn is_image(self, image: Seq<u8>) -> bool {
        &&& image.len() == Self::size_with(self.regions@.len() as int)
        &&& self.header.is_image(image.subrange(0, GENERAL_HEADER_SIZE as int))
        &&& forall|i: int|
            0 <= i < self.regions@.len() ==> (#[trigger] self.regions@[i]).is_image(
                Self::region_image(image, i),
            )
    }

    /// The first unknown tag of region entry `index`, with its offset counted
    /// from the start of the table; `None` when the entry's tags are known.
    pub open spec fn region_fault(image: Seq<u8>, index: int) -> Option<DecodeError> {
        match MemoryMapRegionTable::tag_fault(Self::region_image(image, index)) {
            Some(error) => Some(
                error.moved(GENERAL_HEADER_SIZE + MEMORY_MAP_REGION_SIZE * index),
            ),
            None => None,
        }
    }

    /// Whether `error` tells the first unknown tag among the first `regions`
    /// region entries of `image`.
    pub open spec fn first_fault(image: Seq<u8>, regions: int, error: DecodeError) -> bool {
        exists|i: int|
            0 <= i < regions && #[trigger] Self::region_fault(image, i) == Some(error) && forall|
                j: int,
            |
                0 <= j < i ==> #[trigger] Self::region_fault(image, j) is None
    }

    /// Decodes the memory map table with `regions` region entries at the
    /// start of `bytes`.
    ///
    /// Fails when `bytes` holds fewer than `32 + 24 * regions` bytes, and
    /// else when a region entry holds an unknown tag; the error tells the
    /// first such tag of the table.
    pub fn decode(bytes: &[u8], regions: usize) -> (decoded: Result<MemoryMapTable, DecodeError>)
        ensures
            match decoded {
                Ok(table) => {
                    &&& Self::size_with(regions as int) <= bytes@.len()
                    &&& table.regions@.len() == regions
                    &&& table.is_image(bytes@.subrange(0, Self::size_with(regions as int)))
                    &&& forall|i: int|
                        0 <= i < regions ==> #[trigger] Self::region_fault(
                            bytes@.subrange(0, Self::size_with(regions as int)),
                            i,
                        ) is None
                },
                Err(error) => if Self::size_with(regions as int) > bytes@.len() {
                    error == (DecodeError::BufferTooShort {
                        needed: if Self::size_with(regions as int) <= usize::MAX {
                            Self::size_with(regions as int) as usize
                        } else {
                            usize::MAX
                        },
                        available: bytes@.len() as usize,
                    })
                } else {
                    Self::first_fault(
                        bytes@.subrange(0, Self::size_with(regions as int)),
                        regions as int,
                        error,
                    )
                },
            },
    {
        let available: usize = bytes.len();
        if regions > (usize::MAX - GENERAL_HEADER_SIZE) / MEMORY_MAP_REGION_SIZE {
            return Err(DecodeError::BufferTooShort { needed: usize::MAX, available });
        }
        let needed: usize = GENERAL_HEADER_SIZE + MEMORY_MAP_REGION_SIZE * regions;
        if available < needed {
            return Err(DecodeError::BufferTooShort { needed, available });
        }
        let ghost image = bytes@.subrange(0, needed as int);
        let header = GeneralHeader::parse(bytes, 0);
        assert(image.subrange(0, GENERAL_HEADER_SIZE as int) =~= bytes@.subrange(
            0,
            GENERAL_HEADER_SIZE as int,
        ));
        let mut entries: Vec<MemoryMapRegionTable> = Vec::new();
        let mut i: usize = 0;
        while i < regions
            invariant
                i <= regions,
                needed == GENERAL_HEADER_SIZE + MEMORY_MAP_REGION_SIZE * regions,
                needed <= bytes.len(),
                image == bytes@.subrange(0, needed as int),
                entries@.len() == i,
                forall|j: int| 0 <= j < i ==> #[trigger] Self::region_fault(image, j) is None,
                forall|j: int|
                    0 <= j < i ==> (#[trigger] entries@[j]).is_image(Self::region_image(image, j)),
            decreases regions - i,
        {
            let at: usize = GENERAL_HEADER_SIZE + MEMORY_MAP_REGION_SIZE * i;
            assert(Self::region_image(image, i as int) =~= bytes@.subrange(
                at as int,
                at + MEMORY_MAP_REGION_SIZE,
            ));
            match MemoryMapRegionTable::parse(bytes, at) {
                Ok(region) => {
                    entries.push(region);
                },
                Err(error) => {
                    let moved = error.rebase(at);
                    assert(Self::region_fault(image, i as int) == Some(moved));
                    return Err(moved);
                },
            }
            i += 1;
        }
        Ok(MemoryMapTable { header, regions: entries })
    }

    /// Encodes this table: the header, then the region entries in order.
    pub fn encode(&self) -> (image: Vec<u8>)
        ensures
            self.is_image(image@),
    {
        let mut image: Vec<u8> = Vec::new();
        self.header.write(&mut image);
        let ghost header_image = image@;
        let count: usize = self.regions.len();
        let mut i: usize = 0;
        while i < count
            invariant
                i <= count,
                count == self.regions@.len(),
                image@.len() == Self::size_with(i as int),
                image@.subrange(0, GENERAL_HEADER_SIZE as int) == header_image,
                forall|j: int|
                    0 <= j < i ==> (#[trigger] self.regions@[j]).is_image(
                        Self::region_image(image@, j),
                    ),
            decreases count - i,
        {
            let ghost before = image@;
            self.regions[i].write(&mut image);
            assert(image@.subrange(0, GENERAL_HEADER_SIZE as int) =~= before.subrange(
                0,
                GENERAL_HEADER_SIZE as int,
            ));
            assert forall|j: int| 0 <= j < i + 1 implies (#[trigger] self.regions@[j]).is_image(
                Self::region_image(image@, j),
            ) by {
                if j < i {
                    assert(Self::region_image(image@, j) =~= Self::region_image(before, j));
                } else {
                    assert(Self::region_image(image@, j) =~= image@.subrange(
                        before.len() as int,
                        before.len() + MEMORY_MAP_REGION_SIZE,
                    ));
                }
            }
            i += 1;
        }
        assert(header_image =~= header_image.subrange(0, GENERAL_HEADER_SIZE as int));
        image
    }
}

/// No 24 bytes hold two region entries: what `decode` returns for the bytes
/// that `encode` made of an entry is that entry.
pub proof fn lemma_image_determines_region(
    a: MemoryMapRegionTable,
    b: MemoryMapRegionTable,
    image: Seq<u8>,
)
    requires
        a.is_image(image),
        b.is_image(image),
    ensures
        a == b,
{
    assert(a.reserved =~= b.reserved);
}

/// No region entry has two images: what `encode` makes of a decoded entry is
/// the 24 bytes that it was decoded from, reserved bytes included.
pub proof fn lemma_region_determines_image(region: MemoryMapRegionTable, a: Seq<u8>, b: Seq<u8>)
    requires
        region.is_image(a),
        region.is_image(b),
    ensures
        a == b,
{
    lemma_le_u64_injective(a, 0, b, 0);
    lemma_le_u64_injective(a, 8, b, 8);
    assert forall|k: int| 0 <= k < 24 implies a[k] == b[k] by {
        if 19 <= k {
            assert(a.subrange(19, 24)[k - 19] == b.subrange(19, 24)[k - 19]);
        }
    }
    assert(a =~= b);
}

/// No bytes hold two memory map tables: the image determines the header and
/// every region entry.
pub proof fn lemma_image_determines_memory_map(
    a: MemoryMapTable,
    b: MemoryMapTable,
    image: Seq<u8>,
)
    requires
        a.is_image(image),
        b.is_image(image),
    ensures
        a.header == b.header,
        a.regions@ == b.regions@,
{
    lemma_image_determines_header(a.header, b.header, image.subrange(0, 32));
    assert(a.regions@.len() == b.regions@.len());
    assert forall|i: int| 0 <= i < a.regions@.len() implies a.regions@[i] == b.regions@[i] by {
        lemma_image_determines_region(
            a.regions@[i],
            b.regions@[i],
            MemoryMapTable::region_image(image, i),
        );
    }
    assert(a.regions@ =~= b.regions@);
}

/// No memory map table has two images: what `encode` makes of a decoded table
/// is the bytes that it was decoded from.
pub proof fn lemma_memory_map_determines_image(table: MemoryMapTable, a: Seq<u8>, b: Seq<u8>)
    requires
        table.is_image(a),
        table.is_image(b),
    ensures
        a == b,
{
    lemma_header_determines_image(table.header, a.subrange(0, 32), b.subrange(0, 32));
    assert forall|k: int| 0 <= k < a.len() implies a[k] == b[k] by {
        if k < 32 {
            assert(a.subrange(0, 32)[k] == b.subrange(0, 32)[k]);
        } else {
            let i = (k - 32) / 24;
            let region = table.regions@[i];
            lemma_region_determines_image(
                region,
                MemoryMapTable::region_image(a, i),
                MemoryMapTable::region_image(b, i),
            );
            assert(MemoryMapTable::region_image(a, i)[k - 32 - 24 * i] == a[k]);
            assert(MemoryMapTable::region_image(b, i)[k - 32 - 24 * i] == b[k]);
        }
    }
    assert(a =~= b);
}

} // verus!
