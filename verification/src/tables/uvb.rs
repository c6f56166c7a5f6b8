//! The UVB table: the windows of the virtual bus.

use crate::error::DecodeError;
use crate::tables::header::{
    lemma_header_determines_image, lemma_image_determines_header, GeneralHeader,
    GENERAL_HEADER_SIZE,
};
use crate::wire::{
    grown_by, le_u32, le_u64, lemma_le_u32_injective, lemma_le_u64_injective, push_array,
    push_u32, push_u64, read_array, read_u32, read_u64,
};
use vstd::prelude::*;

verus! {

/// The number of window descriptions of a member, and of members of a table.
pub const UVB_CAPACITY: usize = 512;

/// The size in bytes of a window description.
pub const UVB_WINDOW_SIZE: usize = 32;

/// The size in bytes of a member: 8 bytes and 512 window descriptions.
pub const UVB_MEMBER_SIZE: usize = 16392;

/// The size in bytes of the UVB table: the header and 512 members.
pub const UVB_TABLE_SIZE: usize = 8392736;

/// UBIOS Uvb object description header field.
#[derive(Clone, Debug, PartialEq, Eq, Hash)]
pub struct UvbOdHeader(pub GeneralHeader);

/// UBIOS UVB window description.
///
/// | offset | size | field      |
/// |--------|------|------------|
/// | 0      | 8    | `obtain`   |
/// | 8      | 8    | `address`  |
/// | 16     | 8    | `buffer`   |
/// | 24     | 4    | `size`     |
/// | 28     | 4    | `reserved` |
#[derive(Clone, Copy, Debug, PartialEq, Eq, Hash)]
pub struct UvbWindowDescript {
    /// Used to obtain the system physical address of this window (write the
    /// occupant's User ID to this address).
    pub obtain: u64,
    /// The system physical address of the UVB window.
    pub address: u64,
    /// The system physical address of the specific space within this window
    /// (if it exists).
    pub buffer: u64,
    /// The size of the buffer.
    pub size: u32,
    /// Reserved field.
    pub reserved: [u8; 4],
}

impl UvbWindowDescript {
    /// Whether the 32 bytes `image` hold this window description.
    pub open spec fn is_image(self, image: Seq<u8>) -> bool {
        &&& image.len() == UVB_WINDOW_SIZE
        &&& le_u64(image, 0) == self.obtain
        &&& le_u64(image, 8) == self.address
        &&& le_u64(image, 16) == self.buffer
        &&& le_u32(image, 24) == self.size
        &&& image.subrange(28, 32) =~= self.reserved@
    }

    /// Reads the window description at `bytes[at..at + 32]`.
    pub(crate) fn parse(bytes: &[u8], at: usize) -> (window: UvbWindowDescript)
        requires
            at + UVB_WINDOW_SIZE <= bytes.len(),
        ensures
            window.is_image(bytes@.subrange(at as int, at + UVB_WINDOW_SIZE)),
    {
        UvbWindowDescript {
            obtain: read_u64(bytes, at),
            address: read_u64(bytes, at + 8),
            buffer: read_u64(bytes, at + 16),
            size: read_u32(bytes, at + 24),
            reserved: read_array::<4>(bytes, at + 28),
        }
    }

    /// Appends the 32 bytes of this window description.
    pub(crate) fn write(&self, out: &mut Vec<u8>)
        ensures
            grown_by(final(out)@, old(out)@, UVB_WINDOW_SIZE as int),
            self.is_image(
                final(out)@.subrange(old(out)@.len() as int, old(out)@.len() + UVB_WINDOW_SIZE),
            ),
    {
        push_u64(out, self.obtain);
        push_u64(out, self.address);
        push_u64(out, self.buffer);
        push_u32(out, self.size);
        push_array::<4>(out, &self.reserved);
    }
}

/// UBIOS Uvb object description member field.
///
/// | offset      | size | field      |
/// |-------------|------|------------|
/// | 0           | 4    | `delay`    |
/// | 4           | 4    | `reserved` |
/// | 8 + 32 * i  | 32   | `wd[i]`    |
#[derive(Clone, Debug, PartialEq, Eq, Hash)]
pub struct UvbOdMember {
    /// When acquiring the window, read back the previously written User ID
    /// after a delay of this many milliseconds.
    pub delay: u32,
    /// Reserved field.
    pub reserved: [u8; 4],
    /// The window descriptions of this member.
    pub wd: [UvbWindowDescript; 512],
}

impl UvbOdMember {
    /// The bytes of window description `index` in the image of a member.
    pub open spec fn window_image(image: Seq<u8>, index: int) -> Seq<u8> {
        image.subrange(8 + UVB_WINDOW_SIZE * index, 8 + UVB_WINDOW_SIZE * (index + 1))
    }

    /// Whether the 16392 bytes `image` hold this member.
    pub open spec fn is_image(self, image: Seq<u8>) -> bool {
        &&& image.len() == UVB_MEMBER_SIZE
        &&& le_u32(image, 0) == self.delay
        &&& image.subrange(4, 8) =~= self.reserved@
        &&& forall|i: int|
            0 <= i < UVB_CAPACITY ==> (#[trigger] self.wd@[i]).is_image(
                Self::window_image(image, i),
            )
    }

    /// Reads the member at `bytes[at..at + 16392]`.
    pub(crate) fn parse(bytes: &[u8], at: usize) -> (member: UvbOdMember)
        requires
            at + UVB_MEMBER_SIZE <= bytes.len(),
        ensures
            member.is_image(bytes@.subrange(at as int, at + UVB_MEMBER_SIZE)),
    {
        let ghost image = bytes@.subrange(at as int, at + UVB_MEMBER_SIZE);
        let delay = read_u32(bytes, at);
        let reserved = read_array::<4>(bytes, at + 4);
        let blank = UvbWindowDescript { obtain: 0, address: 0, buffer: 0, size: 0, reserved: [0u8; 4] };
        let mut wd: [UvbWindowDescript; 512] = [blank; 512];
        let mut i: usize = 0;
        while i < UVB_CAPACITY
            invariant
                i <= UVB_CAPACITY,
                at + UVB_MEMBER_SIZE <= bytes.len(),
                image == bytes@.subrange(at as int, at + UVB_MEMBER_SIZE),
                forall|j: int|
                    0 <= j < i ==> (#[trigger] wd@[j]).is_image(Self::window_image(image, j)),
            decreases UVB_CAPACITY - i,
        {
            let from: usize = at + 8 + UVB_WINDOW_SIZE * i;
            assert(Self::window_image(image, i as int) =~= bytes@.subrange(
                from as int,
                from + UVB_WINDOW_SIZE,
            ));
            let window = UvbWindowDescript::parse(bytes, from);
            wd[i] = window;
            i += 1;
        }
        UvbOdMember { delay, reserved, wd }
    }

    /// Appends the 16392 bytes of this member.
    pub(crate) fn write(&self, out: &mut Vec<u8>)
        ensures
            grown_by(final(out)@, old(out)@, UVB_MEMBER_SIZE as int),
            self.is_image(
                final(out)@.subrange(old(out)@.len() as int, old(out)@.len() + UVB_MEMBER_SIZE),
            ),
    {
        let ghost start = out@.len() as int;
        push_u32(out, self.delay);
        push_array::<4>(out, &self.reserved);
        let ghost head = out@;
        let mut i: usize = 0;
        while i < UVB_CAPACITY
            invariant
                i <= UVB_CAPACITY,
                start + 8 == head.len(),
                out@.len() == start + 8 + UVB_WINDOW_SIZE * i,
                grown_by(out@, head, UVB_WINDOW_SIZE * i),
                forall|j: int|
                    0 <= j < i ==> (#[trigger] self.wd@[j]).is_image(
                        out@.subrange(
                            start + 8 + UVB_WINDOW_SIZE * j,
                            start + 8 + UVB_WINDOW_SIZE * (j + 1),
                        ),
                    ),
            decreases UVB_CAPACITY - i,
        {
            let ghost before = out@;
            self.wd[i].write(out);
            assert forall|j: int| 0 <= j < i + 1 implies (#[trigger] self.wd@[j]).is_image(
                out@.subrange(
                    start + 8 + UVB_WINDOW_SIZE * j,
                    start + 8 + UVB_WINDOW_SIZE * (j + 1),
                ),
            ) by {
                if j < i {
                    assert(out@.subrange(
                        start + 8 + UVB_WINDOW_SIZE * j,
                        start + 8 + UVB_WINDOW_SIZE * (j + 1),
                    ) =~= before.subrange(
                        start + 8 + UVB_WINDOW_SIZE * j,
                        start + 8 + UVB_WINDOW_SIZE * (j + 1),
                    ));
                }
            }
            i += 1;
        }
        let ghost image = out@.subrange(start, start + UVB_MEMBER_SIZE);
        assert(image.subrange(4, 8) =~= head.subrange(start + 4, start + 8));
        assert forall|j: int| 0 <= j < UVB_CAPACITY implies (#[trigger] self.wd@[j]).is_image(
            Self::window_image(image, j),
        ) by {
            assert(Self::window_image(image, j) =~= out@.subrange(
                start + 8 + UVB_WINDOW_SIZE * j,
                start + 8 + UVB_WINDOW_SIZE * (j + 1),
            ));
        }
    }
}

/// UBIOS Uvb table: the header and 512 members.
///
/// | offset         | size  | field       |
/// |----------------|-------|-------------|
/// | 0              | 32    | `header`    |
/// | 32 + 16392 * i | 16392 | `member[i]` |
#[derive(Debug, PartialEq, Eq, Hash)]
pub struct UvbTable {
    header: UvbOdHeader,
    member: Vec<UvbOdMember>,
}

/// What a UVB table holds: its header and its members in order.
pub struct UvbTableView {
    /// The Uvb header field.
    pub header: UvbOdHeader,
    /// The Uvb member field.
    pub member: Seq<UvbOdMember>,
}

impl UvbTableView {
    /// The bytes of member `index` in the image of a table.
    pub open spec fn member_image(image: Seq<u8>, index: int) -> Seq<u8> {
        image.subrange(
            GENERAL_HEADER_SIZE + UVB_MEMBER_SIZE * index,
            GENERAL_HEADER_SIZE + UVB_MEMBER_SIZE * (index + 1),
        )
    }

    /// Whether the table has its 512 members.
    pub open spec fn wf(self) -> bool {
        self.member.len() == UVB_CAPACITY
    }

    /// Whether the 8392736 bytes `image` hold this table.
    pub open spec fn is_image(self, image: Seq<u8>) -> bool {
        &&& image.len() == UVB_TABLE_SIZE
        &&& self.member.len() == UVB_CAPACITY
        &&& self.header.0.is_image(image.subrange(0, GENERAL_HEADER_SIZE as int))
        &&& forall|i: int|
            0 <= i < UVB_CAPACITY ==> (#[trigger] self.member[i]).is_image(
                Self::member_image(image, i),
            )
    }
}

impl View for UvbTable {
    type V = UvbTableView;

    closed spec fn view(&self) -> UvbTableView {
        UvbTableView { header: self.header, member: self.member@ }
    }
}

impl Clone for UvbTable {
    /// A table with the same header and members.
    fn clone(&self) -> (copy: UvbTable)
        ensures
            copy@ == self@,
    {
        proof {
            use_type_invariant(self);
        }
        let name = self.header.0.name;
        let reserved = self.header.0.reserved;
        let header = UvbOdHeader(
            GeneralHeader {
                name,
                size: self.header.0.size,
                version: self.header.0.version,
                reserved,
                remain_size: self.header.0.remain_size,
                checksum: self.header.0.checksum,
            },
        );
        let mut member: Vec<UvbOdMember> = Vec::new();
        let mut i: usize = 0;
        while i < UVB_CAPACITY
            invariant
                i <= UVB_CAPACITY,
                self.member@.len() == UVB_CAPACITY,
                member@.len() == i,
                forall|j: int| 0 <= j < i ==> member@[j] == self.member@[j],
            decreases UVB_CAPACITY - i,
        {
            let from = &self.member[i];
            let reserved = from.reserved;
            let wd = from.wd;
            member.push(UvbOdMember { delay: from.delay, reserved, wd });
            i += 1;
        }
        assert(member@ =~= self.member@);
        UvbTable { header, member }
    }
}

impl UvbTable {
    #[verifier::type_invariant]
    spec fn full(self) -> bool {
        self.member@.len() == UVB_CAPACITY
    }

    /// Makes a table of a header and 512 members. Returns `None` when
    /// `member` does not hold exactly 512 members.
    pub fn new(header: UvbOdHeader, member: Vec<UvbOdMember>) -> (table: Option<UvbTable>)
        ensures
            match table {
                Some(t) => member@.len() == UVB_CAPACITY && t@.header == header && t@.member
                    == member@,
                None => member@.len() != UVB_CAPACITY,
            },
    {
        if member.len() == UVB_CAPACITY {
            Some(UvbTable { header, member })
        } else {
            None
        }
    }

    /// The Uvb header field.
    pub fn header(&self) -> (header: &UvbOdHeader)
        ensures
            *header == self@.header,
            self@.wf(),
    {
        proof {
            use_type_invariant(self);
        }
        &self.header
    }

    /// Member `index` of the table; `None` when `index` is 512 or more.
    pub fn member(&self, index: usize) -> (member: Option<&UvbOdMember>)
        ensures
            self@.wf(),
            match member {
                Some(m) => index < UVB_CAPACITY && *m == self@.member[index as int],
                None => index >= UVB_CAPACITY,
            },
    {
        proof {
            use_type_invariant(self);
        }
        if index < UVB_CAPACITY {
            Some(&self.member[index])
        } else {
            None
        }
    }

    /// Decodes the UVB table at the start of `bytes`.
    ///
    /// Fails when `bytes` holds fewer than 8392736 bytes, and only then.
    pub fn decode(bytes: &[u8]) -> (decoded: Result<UvbTable, DecodeError>)
        ensures
            match decoded {
                Ok(table) => bytes@.len() >= UVB_TABLE_SIZE && table@.is_image(
                    bytes@.subrange(0, UVB_TABLE_SIZE as int),
                ),
                Err(error) => bytes@.len() < UVB_TABLE_SIZE && error == (
                DecodeError::BufferTooShort {
                    needed: UVB_TABLE_SIZE,
                    available: bytes@.len() as usize,
                }),
            },
    {
        if bytes.len() < UVB_TABLE_SIZE {
            return Err(
                DecodeError::BufferTooShort { needed: UVB_TABLE_SIZE, available: bytes.len() },
            );
        }
        let ghost image = bytes@.subrange(0, UVB_TABLE_SIZE as int);
        let header = UvbOdHeader(GeneralHeader::parse(bytes, 0));
        assert(image.subrange(0, GENERAL_HEADER_SIZE as int) =~= bytes@.subrange(
            0,
            GENERAL_HEADER_SIZE as int,
        ));
        let mut member: Vec<UvbOdMember> = Vec::new();
        let mut i: usize = 0;
        while i < UVB_CAPACITY
            invariant
                i <= UVB_CAPACITY,
                UVB_TABLE_SIZE <= bytes.len(),
                image == bytes@.subrange(0, UVB_TABLE_SIZE as int),
                member@.len() == i,
                forall|j: int|
                    0 <= j < i ==> (#[trigger] member@[j]).is_image(
                        UvbTableView::member_image(image, j),
                    ),
            decreases UVB_CAPACITY - i,
        {
            let at: usize = GENERAL_HEADER_SIZE + UVB_MEMBER_SIZE * i;
            assert(UvbTableView::member_image(image, i as int) =~= bytes@.subrange(
                at as int,
                at + UVB_MEMBER_SIZE,
            ));
            let next = UvbOdMember::parse(bytes, at);
            member.push(next);
            i += 1;
        }
        Ok(UvbTable { header, member })
    }

    /// Encodes this table as its 8392736 bytes.
    pub fn encode(&self) -> (image: Vec<u8>)
        ensures
            self@.is_image(image@),
    {
        proof {
            use_type_invariant(self);
        }
        let mut image: Vec<u8> = Vec::new();
        self.header.0.write(&mut image);
        let ghost header_image = image@;
        let mut i: usize = 0;
        while i < UVB_CAPACITY
            invariant
                i <= UVB_CAPACITY,
                self.member@.len() == UVB_CAPACITY,
                header_image.len() == GENERAL_HEADER_SIZE,
                image@.len() == GENERAL_HEADER_SIZE + UVB_MEMBER_SIZE * i,
                image@.subrange(0, GENERAL_HEADER_SIZE as int) =~= header_image,
                forall|j: int|
                    0 <= j < i ==> (#[trigger] self.member@[j]).is_image(
                        UvbTableView::member_image(image@, j),
                    ),
            decreases UVB_CAPACITY - i,
        {
            let ghost before = image@;
            self.member[i].write(&mut image);
            assert(image@.subrange(0, GENERAL_HEADER_SIZE as int) =~= before.subrange(
                0,
                GENERAL_HEADER_SIZE as int,
            ));
            assert forall|j: int| 0 <= j < i + 1 implies (#[trigger] self.member@[j]).is_image(
                UvbTableView::member_image(image@, j),
            ) by {
                if j < i {
                    assert(UvbTableView::member_image(image@, j) =~= UvbTableView::member_image(
                        before,
                        j,
                    ));
                } else {
                    assert(UvbTableView::member_image(image@, j) =~= image@.subrange(
                        before.len() as int,
                        before.len() + UVB_MEMBER_SIZE,
                    ));
                }
            }
            i += 1;
        }
        assert(header_image =~= header_image.subrange(0, GENERAL_HEADER_SIZE as int));
        image
    }
}

/// No 32 bytes hold two window descriptions.
pub proof fn lemma_image_determines_window(
    a: UvbWindowDescript,
    b: UvbWindowDescript,
    image: Seq<u8>,
)
    requires
        a.is_image(image),
        b.is_image(image),
    ensures
        a == b,
{
    assert(a.reserved =~= b.reserved);
}

/// No window description has two images.
pub proof fn lemma_window_determines_image(window: UvbWindowDescript, a: Seq<u8>, b: Seq<u8>)
    requires
        window.is_image(a),
        window.is_image(b),
    ensures
        a == b,
{
    lemma_le_u64_injective(a, 0, b, 0);
    lemma_le_u64_injective(a, 8, b, 8);
    lemma_le_u64_injective(a, 16, b, 16);
    lemma_le_u32_injective(a, 24, b, 24);
    assert forall|k: int| 0 <= k < 32 implies a[k] == b[k] by {
        if 28 <= k {
            assert(a.subrange(28, 32)[k - 28] == b.subrange(28, 32)[k - 28]);
        }
    }
    assert(a =~= b);
}

/// No 16392 bytes hold two members.
pub proof fn lemma_image_determines_member(a: UvbOdMember, b: UvbOdMember, image: Seq<u8>)
    requires
        a.is_image(image),
        b.is_image(image),
    ensures
        a == b,
{
    assert(a.reserved =~= b.reserved);
    assert forall|i: int| 0 <= i < 512 implies a.wd[i] == b.wd[i] by {
        lemma_image_determines_window(a.wd@[i], b.wd@[i], UvbOdMember::window_image(image, i));
    }
    assert(a.wd =~= b.wd);
}

/// No member has two images.
pub proof fn lemma_member_determines_image(member: UvbOdMember, a: Seq<u8>, b: Seq<u8>)
    requires
        member.is_image(a),
        member.is_image(b),
    ensures
        a == b,
{
    lemma_le_u32_injective(a, 0, b, 0);
    assert forall|k: int| 0 <= k < 16392 implies a[k] == b[k] by {
        if k < 4 {
        } else if k < 8 {
            assert(a.subrange(4, 8)[k - 4] == b.subrange(4, 8)[k - 4]);
        } else {
            let i = (k - 8) / 32;
            lemma_window_determines_image(
                member.wd@[i],
                UvbOdMember::window_image(a, i),
                UvbOdMember::window_image(b, i),
            );
            assert(UvbOdMember::window_image(a, i)[k - 8 - 32 * i] == a[k]);
            assert(UvbOdMember::window_image(b, i)[k - 8 - 32 * i] == b[k]);
        }
    }
    assert(a =~= b);
}

/// No 8392736 bytes hold two UVB tables: what `decode` returns for the bytes
/// that `encode` made of a table is a table with the same header and members.
pub proof fn lemma_image_determines_uvb_table(a: UvbTableView, b: UvbTableView, image: Seq<u8>)
    requires
        a.is_image(image),
        b.is_image(image),
    ensures
        a == b,
{
    lemma_image_determines_header(a.header.0, b.header.0, image.subrange(0, 32));
    assert forall|i: int| 0 <= i < 512 implies a.member[i] == b.member[i] by {
        lemma_image_determines_member(
            a.member[i],
            b.member[i],
            UvbTableView::member_image(image, i),
        );
    }
    assert(a.member =~= b.member);
}

/// No UVB table has two images: what `encode` makes of a decoded table is the
/// 8392736 bytes that it was decoded from, reserved bytes included.
pub proof fn lemma_uvb_table_determines_image(table: UvbTableView, a: Seq<u8>, b: Seq<u8>)
    requires
        table.is_image(a),
        table.is_image(b),
    ensures
        a == b,
{
    lemma_header_determines_image(table.header.0, a.subrange(0, 32), b.subrange(0, 32));
    assert forall|k: int| 0 <= k < 8392736 implies a[k] == b[k] by {
        if k < 32 {
            assert(a.subrange(0, 32)[k] == b.subrange(0, 32)[k]);
        } else {
            let i = (k - 32) / 16392;
            lemma_member_determines_image(
                table.member[i],
                UvbTableView::member_image(a, i),
                UvbTableView::member_image(b, i),
            );
            assert(UvbTableView::member_image(a, i)[k - 32 - 16392 * i] == a[k]);
            assert(UvbTableView::member_image(b, i)[k - 32 - 16392 * i] == b[k]);
        }
    }
    assert(a =~= b);
}

} // verus!
