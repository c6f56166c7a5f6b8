//! The notify info table: the ring buffer that carries Notify ID
//! information, and the interrupt that announces it.
//!
//! The table tells where the ring buffer and its read and write positions
//! lie. Reading and writing the ring itself is the matter of the two sides
//! that share it: the writer must publish a new write position only after
//! the entry behind it is written (a release), and the reader must read the
//! position before the entry (an acquire).

use crate::error::DecodeError;
use crate::message::{lemma_word_determines_message_id, MessageId};
use crate::tables::header::{
    lemma_header_determines_image, lemma_image_determines_header, GeneralHeader,
    GENERAL_HEADER_SIZE,
};
use crate::wire::{
    grown_by, le_u32, le_u64, lemma_le_u32_injective, lemma_le_u64_injective, push_array,
    push_u32, push_u64, read_array, read_u32, read_u64,
};
use vstd::prelude::*;

verus! {

/// The size in bytes of a ring buffer entry.
pub const NOTIFY_INFO_DATA_SIZE: usize = 520;

/// The size in bytes of a ring buffer description.
pub const NOTIFY_INFO_RING_BUFFER_SIZE: usize = 552;

/// The size in bytes of the IRQ clear information.
pub const NOTIFY_INFO_IRQ_CLEAR_SIZE: usize = 24;

/// The size in bytes of the IRQ information.
pub const NOTIFY_INFO_IRQ_SIZE: usize = 32;

/// The size in bytes of the notify info table.
pub const NOTIFY_INFO_TABLE_SIZE: usize = 624;

/// UBIOS Notify Info object description header field.
#[derive(Clone, Debug, PartialEq, Eq, Hash)]
pub struct NotifyInfoOdHeader(pub GeneralHeader);

/// UBIOS Notify Info ring buffer data field.
///
/// | offset | size | field       |
/// |--------|------|-------------|
/// | 0      | 4    | `notify_id` |
/// | 4      | 4    | `length`    |
/// | 8      | 512  | `raw_data`  |
#[derive(Clone, Debug, PartialEq, Eq, Hash)]
pub struct NotifyInfoRingBufferData {
    /// The message identifier of the entry. It is a Notify ID when
    /// `notify_id.notify_id()` is present.
    pub notify_id: MessageId,
    /// The length of the data; excludes the Notify ID and this field.
    pub length: u32,
    /// The data, whose meaning the Information ID determines.
    pub raw_data: [u8; 512],
}

impl NotifyInfoRingBufferData {
    /// Whether the 520 bytes `image` hold this entry.
    pub open spec fn is_image(self, image: Seq<u8>) -> bool {
        &&& image.len() == NOTIFY_INFO_DATA_SIZE
        &&& le_u32(image, 0) == self.notify_id@
        &&& le_u32(image, 4) == self.length
        &&& image.subrange(8, 520) =~= self.raw_data@
    }

    /// Reads the entry at `bytes[at..at + 520]`.
    pub(crate) fn parse(bytes: &[u8], at: usize) -> (data: NotifyInfoRingBufferData)
        requires
            at + NOTIFY_INFO_DATA_SIZE <= bytes.len(),
        ensures
            data.is_image(bytes@.subrange(at as int, at + NOTIFY_INFO_DATA_SIZE)),
    {
        NotifyInfoRingBufferData {
            notify_id: MessageId::from_raw(read_u32(bytes, at)),
            length: read_u32(bytes, at + 4),
            raw_data: read_array::<512>(bytes, at + 8),
        }
    }

    /// Appends the 520 bytes of this entry.
    pub(crate) fn write(&self, out: &mut Vec<u8>)
        ensures
            grown_by(final(out)@, old(out)@, NOTIFY_INFO_DATA_SIZE as int),
            self.is_image(
                final(out)@.subrange(
                    old(out)@.len() as int,
                    old(out)@.len() + NOTIFY_INFO_DATA_SIZE,
                ),
            ),
    {
        push_u32(out, self.notify_id.raw());
        push_u32(out, self.length);
        push_array::<512>(out, &self.raw_data);
    }
}

/// UBIOS Notify Info ring buffer struct.
///
/// | offset | size | field       |
/// |--------|------|-------------|
/// | 0      | 8    | `head`      |
/// | 8      | 8    | `tail`      |
/// | 16     | 8    | `read_pos`  |
/// | 24     | 8    | `write_pos` |
/// | 32     | 520  | `data`      |
#[derive(Clone, Debug, PartialEq, Eq, Hash)]
pub struct NotifyInfoRingBuffer {
    /// The system physical address of the start of the ring buffer.
    pub head: u64,
    /// The system physical address of the end of the ring buffer.
    pub tail: u64,
    /// The address that stores the read position: the start of valid Notify
    /// ID Information.
    pub read_pos: u64,
    /// The address that stores the write position: the end of valid Notify ID
    /// Information and the start of the empty area.
    pub write_pos: u64,
    /// The data of the ring buffer.
    pub data: NotifyInfoRingBufferData,
}

impl NotifyInfoRingBuffer {
    /// Whether the 552 bytes `image` hold this ring buffer description.
    pub open spec fn is_image(self, image: Seq<u8>) -> bool {
        &&& image.len() == NOTIFY_INFO_RING_BUFFER_SIZE
        &&& le_u64(image, 0) == self.head
        &&& le_u64(image, 8) == self.tail
        &&& le_u64(image, 16) == self.read_pos
        &&& le_u64(image, 24) == self.write_pos
        &&& self.data.is_image(image.subrange(32, 552))
    }

    /// Reads the ring buffer description at `bytes[at..at + 552]`.
    pub(crate) fn parse(bytes: &[u8], at: usize) -> (ring: NotifyInfoRingBuffer)
        requires
            at + NOTIFY_INFO_RING_BUFFER_SIZE <= bytes.len(),
        ensures
            ring.is_image(bytes@.subrange(at as int, at + NOTIFY_INFO_RING_BUFFER_SIZE)),
    {
        let data = NotifyInfoRingBufferData::parse(bytes, at + 32);
        assert(bytes@.subrange(at as int, at + NOTIFY_INFO_RING_BUFFER_SIZE).subrange(32, 552)
            =~= bytes@.subrange(at + 32, at + 32 + NOTIFY_INFO_DATA_SIZE));
        NotifyInfoRingBuffer {
            head: read_u64(bytes, at),
            tail: read_u64(bytes, at + 8),
            read_pos: read_u64(bytes, at + 16),
            write_pos: read_u64(bytes, at + 24),
            data,
        }
    }

    /// Appends the 552 bytes of this ring buffer description.
    pub(crate) fn write(&self, out: &mut Vec<u8>)
        ensures
            grown_by(final(out)@, old(out)@, NOTIFY_INFO_RING_BUFFER_SIZE as int),
            self.is_image(
                final(out)@.subrange(
                    old(out)@.len() as int,
                    old(out)@.len() + NOTIFY_INFO_RING_BUFFER_SIZE,
                ),
            ),
    {
        let ghost start = out@.len() as int;
        push_u64(out, self.head);
        push_u64(out, self.tail);
        push_u64(out, self.read_pos);
        push_u64(out, self.write_pos);
        self.data.write(out);
        assert(out@.subrange(start, start + NOTIFY_INFO_RING_BUFFER_SIZE).subrange(32, 552)
            =~= out@.subrange(start + 32, start + 32 + NOTIFY_INFO_DATA_SIZE));
    }
}

/// UBIOS Notify Info IRQ clear struct.
///
/// | offset | size | field   |
/// |--------|------|---------|
/// | 0      | 8    | `addr`  |
/// | 8      | 8    | `mask`  |
/// | 16     | 8    | `value` |
#[derive(Clone, Copy, Debug, PartialEq, Eq, Hash)]
pub struct NotifyInfoIrqClear {
    /// The address of IRQ clear data.
    pub addr: u64,
    /// The mask of IRQ clear data.
    pub mask: u64,
    /// The value of IRQ clear data.
    pub value: u64,
}

impl NotifyInfoIrqClear {
    /// Whether the 24 bytes `image` hold this IRQ clear information.
    pub open spec fn is_image(self, image: Seq<u8>) -> bool {
        &&& image.len() == NOTIFY_INFO_IRQ_CLEAR_SIZE
        &&& le_u64(image, 0) == self.addr
        &&& le_u64(image, 8) == self.mask
        &&& le_u64(image, 16) == self.value
    }

    /// Reads the IRQ clear information at `bytes[at..at + 24]`.
    pub(crate) fn parse(bytes: &[u8], at: usize) -> (clear: NotifyInfoIrqClear)
        requires
            at + NOTIFY_INFO_IRQ_CLEAR_SIZE <= bytes.len(),
        ensures
            clear.is_image(bytes@.subrange(at as int, at + NOTIFY_INFO_IRQ_CLEAR_SIZE)),
    {
        NotifyInfoIrqClear {
            addr: read_u64(bytes, at),
            mask: read_u64(bytes, at + 8),
            value: read_u64(bytes, at + 16),
        }
    }

    /// Appends the 24 bytes of this IRQ clear information.
    pub(crate) fn write(&self, out: &mut Vec<u8>)
        ensures
            grown_by(final(out)@, old(out)@, NOTIFY_INFO_IRQ_CLEAR_SIZE as int),
            self.is_image(
                final(out)@.subrange(
                    old(out)@.len() as int,
                    old(out)@.len() + NOTIFY_INFO_IRQ_CLEAR_SIZE,
                ),
            ),
    {
        push_u64(out, self.addr);
        push_u64(out, self.mask);
        push_u64(out, self.value);
    }
}

/// UBIOS Notify Info IRQ.
///
/// | offset | size | field      |
/// |--------|------|------------|
/// | 0      | 4    | `number`   |
/// | 4      | 4    | `reserved` |
/// | 8      | 24   | `clear`    |
#[derive(Clone, Copy, Debug, PartialEq, Eq, Hash)]
pub struct NotifyInfoIrq {
    /// The interrupt number used to send signals to the OS.
    pub number: u32,
    /// Reserved field.
    pub reserved: [u8; 4],
    /// Information used to clear the interrupt status.
    pub clear: NotifyInfoIrqClear,
}

impl NotifyInfoIrq {
    /// Whether the 32 bytes `image` hold this IRQ information.
    pub open spec fn is_image(self, image: Seq<u8>) -> bool {
        &&& image.len() == NOTIFY_INFO_IRQ_SIZE
        &&& le_u32(image, 0) == self.number
        &&& image.subrange(4, 8) =~= self.reserved@
        &&& self.clear.is_image(image.subrange(8, 32))
    }

    /// Reads the IRQ information at `bytes[at..at + 32]`.
    pub(crate) fn parse(bytes: &[u8], at: usize) -> (irq: NotifyInfoIrq)
        requires
            at + NOTIFY_INFO_IRQ_SIZE <= bytes.len(),
        ensures
            irq.is_image(bytes@.subrange(at as int, at + NOTIFY_INFO_IRQ_SIZE)),
    {
        let clear = NotifyInfoIrqClear::parse(bytes, at + 8);
        assert(bytes@.subrange(at as int, at + NOTIFY_INFO_IRQ_SIZE).subrange(8, 32)
            =~= bytes@.subrange(at + 8, at + 8 + NOTIFY_INFO_IRQ_CLEAR_SIZE));
        NotifyInfoIrq {
            number: read_u32(bytes, at),
            reserved: read_array::<4>(bytes, at + 4),
            clear,
        }
    }

    /// Appends the 32 bytes of this IRQ information.
    pub(crate) fn write(&self, out: &mut Vec<u8>)
        ensures
            grown_by(final(out)@, old(out)@, NOTIFY_INFO_IRQ_SIZE as int),
            self.is_image(
                final(out)@.subrange(
                    old(out)@.len() as int,
                    old(out)@.len() + NOTIFY_INFO_IRQ_SIZE,
                ),
            ),
    {
        let ghost start = out@.len() as int;
        push_u32(out, self.number);
        push_array::<4>(out, &self.reserved);
        let ghost head = out@;
        self.clear.write(out);
        assert(out@.subrange(start, start + NOTIFY_INFO_IRQ_SIZE).subrange(4, 8)
            =~= head.subrange(start + 4, start + 8));
        assert(out@.subrange(start, start + NOTIFY_INFO_IRQ_SIZE).subrange(8, 32)
            =~= out@.subrange(start + 8, start + 8 + NOTIFY_INFO_IRQ_CLEAR_SIZE));
    }
}

/// UBIOS Notify Info table.
///
/// | offset | size | field         |
/// |--------|------|---------------|
/// | 0      | 32   | `header`      |
/// | 32     | 552  | `ring_buffer` |
/// | 584    | 1    | `uvb_index`   |
/// | 585    | 7    | `reserved`    |
/// | 592    | 32   | `irq`         |
#[derive(Clone, Debug, PartialEq, Eq, Hash)]
pub struct NotifyInfoTable {
    /// The notify info od header field.
    pub header: NotifyInfoOdHeader,
    /// Information about the ring buffer.
    pub ring_buffer: NotifyInfoRingBuffer,
    /// The index of the UVB that transmits Notify ID information.
    pub uvb_index: u8,
    /// Reserved field.
    pub reserved: [u8; 7],
    /// Interrupt request information.
    pub irq: NotifyInfoIrq,
}

impl NotifyInfoTable {
    /// Whether the 624 bytes `image` hold this table.
    pub open spec fn is_image(self, image: Seq<u8>) -> bool {
        &&& image.len() == NOTIFY_INFO_TABLE_SIZE
        &&& self.header.0.is_image(image.subrange(0, GENERAL_HEADER_SIZE as int))
        &&& self.ring_buffer.is_image(image.subrange(32, 584))
        &&& image[584] == self.uvb_index
        &&& image.subrange(585, 592) =~= self.reserved@
        &&& self.irq.is_image(image.subrange(592, 624))
    }

    /// Decodes the notify info table at the start of `bytes`.
    ///
    /// Fails when `bytes` holds fewer than 624 bytes, and only then.
    pub fn decode(bytes: &[u8]) -> (decoded: Result<NotifyInfoTable, DecodeError>)
        ensures
            match decoded {
                Ok(table) => bytes@.len() >= NOTIFY_INFO_TABLE_SIZE && table.is_image(
                    bytes@.subrange(0, NOTIFY_INFO_TABLE_SIZE as int),
                ),
                Err(error) => bytes@.len() < NOTIFY_INFO_TABLE_SIZE && error == (
                DecodeError::BufferTooShort {
                    needed: NOTIFY_INFO_TABLE_SIZE,
                    available: bytes@.len() as usize,
                }),
            },
    {
        if bytes.len() < NOTIFY_INFO_TABLE_SIZE {
            return Err(
                DecodeError::BufferTooShort {
                    needed: NOTIFY_INFO_TABLE_SIZE,
                    available: bytes.len(),
                },
            );
        }
        let ghost image = bytes@.subrange(0, NOTIFY_INFO_TABLE_SIZE as int);
        let header = NotifyInfoOdHeader(GeneralHeader::parse(bytes, 0));
        let ring_buffer = NotifyInfoRingBuffer::parse(bytes, 32);
        let irq = NotifyInfoIrq::parse(bytes, 592);
        assert(image.subrange(0, GENERAL_HEADER_SIZE as int) =~= bytes@.subrange(
            0,
            GENERAL_HEADER_SIZE as int,
        ));
        assert(image.subrange(32, 584) =~= bytes@.subrange(32, 32 + NOTIFY_INFO_RING_BUFFER_SIZE));
        assert(image.subrange(592, 624) =~= bytes@.subrange(592, 592 + NOTIFY_INFO_IRQ_SIZE));
        Ok(
            NotifyInfoTable {
                header,
                ring_buffer,
                uvb_index: bytes[584],
                reserved: read_array::<7>(bytes, 585),
                irq,
            },
        )
    }

    /// Encodes this table as its 624 bytes.
    pub fn encode(&self) -> (image: Vec<u8>)
        ensures
            self.is_image(image@),
    {
        let mut image: Vec<u8> = Vec::new();
        self.header.0.write(&mut image);
        let ghost with_header = image@;
        self.ring_buffer.write(&mut image);
        let ghost with_ring = image@;
        image.push(self.uvb_index);
        push_array::<7>(&mut image, &self.reserved);
        let ghost with_reserved = image@;
        self.irq.write(&mut image);
        assert(image@.subrange(0, GENERAL_HEADER_SIZE as int) =~= with_header.subrange(
            0,
            GENERAL_HEADER_SIZE as int,
        ));
        assert(image@.subrange(32, 584) =~= with_ring.subrange(32, 584));
        assert(image@.subrange(585, 592) =~= with_reserved.subrange(585, 592));
        image
    }
}

/// No 520 bytes hold two ring buffer entries.
pub proof fn lemma_image_determines_data(
    a: NotifyInfoRingBufferData,
    b: NotifyInfoRingBufferData,
    image: Seq<u8>,
)
    requires
        a.is_image(image),
        b.is_image(image),
    ensures
        a == b,
{
    lemma_word_determines_message_id(a.notify_id, b.notify_id);
    assert(a.raw_data =~= b.raw_data);
}

/// No ring buffer entry has two images.
pub proof fn lemma_data_determines_image(data: NotifyInfoRingBufferData, a: Seq<u8>, b: Seq<u8>)
    requires
        data.is_image(a),
        data.is_image(b),
    ensures
        a == b,
{
    lemma_le_u32_injective(a, 0, b, 0);
    lemma_le_u32_injective(a, 4, b, 4);
    assert forall|k: int| 0 <= k < 520 implies a[k] == b[k] by {
        if 8 <= k {
            assert(a.subrange(8, 520)[k - 8] == b.subrange(8, 520)[k - 8]);
        }
    }
    assert(a =~= b);
}

/// No 552 bytes hold two ring buffer descriptions.
pub proof fn lemma_image_determines_ring_buffer(
    a: NotifyInfoRingBuffer,
    b: NotifyInfoRingBuffer,
    image: Seq<u8>,
)
    requires
        a.is_image(image),
        b.is_image(image),
    ensures
        a == b,
{
    lemma_image_determines_data(a.data, b.data, image.subrange(32, 552));
}

/// No ring buffer description has two images.
pub proof fn lemma_ring_buffer_determines_image(ring: NotifyInfoRingBuffer, a: Seq<u8>, b: Seq<u8>)
    requires
        ring.is_image(a),
        ring.is_image(b),
    ensures
        a == b,
{
    lemma_le_u64_injective(a, 0, b, 0);
    lemma_le_u64_injective(a, 8, b, 8);
    lemma_le_u64_injective(a, 16, b, 16);
    lemma_le_u64_injective(a, 24, b, 24);
    lemma_data_determines_image(ring.data, a.subrange(32, 552), b.subrange(32, 552));
    assert forall|k: int| 0 <= k < 552 implies a[k] == b[k] by {
        if 32 <= k {
            assert(a.subrange(32, 552)[k - 32] == b.subrange(32, 552)[k - 32]);
        }
    }
    assert(a =~= b);
}

/// No 24 bytes hold two records of IRQ clear information.
pub proof fn lemma_image_determines_irq_clear(
    a: NotifyInfoIrqClear,
    b: NotifyInfoIrqClear,
    image: Seq<u8>,
)
    requires
        a.is_image(image),
        b.is_image(image),
    ensures
        a == b,
{
}

/// No record of IRQ clear information has two images.
pub proof fn lemma_irq_clear_determines_image(clear: NotifyInfoIrqClear, a: Seq<u8>, b: Seq<u8>)
    requires
        clear.is_image(a),
        clear.is_image(b),
    ensures
        a == b,
{
    lemma_le_u64_injective(a, 0, b, 0);
    lemma_le_u64_injective(a, 8, b, 8);
    lemma_le_u64_injective(a, 16, b, 16);
    assert(a =~= b);
}

/// No 32 bytes hold two IRQ informations.
pub proof fn lemma_image_determines_irq(a: NotifyInfoIrq, b: NotifyInfoIrq, image: Seq<u8>)
    requires
        a.is_image(image),
        b.is_image(image),
    ensures
        a == b,
{
    assert(a.reserved =~= b.reserved);
    lemma_image_determines_irq_clear(a.clear, b.clear, image.subrange(8, 32));
}

/// No IRQ information has two images.
pub proof fn lemma_irq_determines_image(irq: NotifyInfoIrq, a: Seq<u8>, b: Seq<u8>)
    requires
        irq.is_image(a),
        irq.is_image(b),
    ensures
        a == b,
{
    lemma_le_u32_injective(a, 0, b, 0);
    lemma_irq_clear_determines_image(irq.clear, a.subrange(8, 32), b.subrange(8, 32));
    assert forall|k: int| 0 <= k < 32 implies a[k] == b[k] by {
        if k < 4 {
        } else if k < 8 {
            assert(a.subrange(4, 8)[k - 4] == b.subrange(4, 8)[k - 4]);
        } else {
            assert(a.subrange(8, 32)[k - 8] == b.subrange(8, 32)[k - 8]);
        }
    }
    assert(a =~= b);
}

/// No 624 bytes hold two notify info tables: what `decode` returns for the
/// bytes that `encode` made of a table is that table.
pub proof fn lemma_image_determines_notify_info_table(
    a: NotifyInfoTable,
    b: NotifyInfoTable,
    image: Seq<u8>,
)
    requires
        a.is_image(image),
        b.is_image(image),
    ensures
        a == b,
{
    lemma_image_determines_header(a.header.0, b.header.0, image.subrange(0, 32));
    lemma_image_determines_ring_buffer(a.ring_buffer, b.ring_buffer, image.subrange(32, 584));
    lemma_image_determines_irq(a.irq, b.irq, image.subrange(592, 624));
    assert(a.reserved =~= b.reserved);
}

/// No notify info table has two images: what `encode` makes of a decoded
/// table is the 624 bytes that it was decoded from, reserved bytes included.
pub proof fn lemma_notify_info_table_determines_image(
    table: NotifyInfoTable,
    a: Seq<u8>,
    b: Seq<u8>,
)
    requires
        table.is_image(a),
        table.is_image(b),
    ensures
        a == b,
{
    lemma_header_determines_image(table.header.0, a.subrange(0, 32), b.subrange(0, 32));
    lemma_ring_buffer_determines_image(
        table.ring_buffer,
        a.subrange(32, 584),
        b.subrange(32, 584),
    );
    lemma_irq_determines_image(table.irq, a.subrange(592, 624), b.subrange(592, 624));
    assert forall|k: int| 0 <= k < 624 implies a[k] == b[k] by {
        if k < 32 {
            assert(a.subrange(0, 32)[k] == b.subrange(0, 32)[k]);
        } else if k < 584 {
            assert(a.subrange(32, 584)[k - 32] == b.subrange(32, 584)[k - 32]);
        } else if k == 584 {
        } else if k < 592 {
            assert(a.subrange(585, 592)[k - 585] == b.subrange(585, 592)[k - 585]);
        } else {
            assert(a.subrange(592, 624)[k - 592] == b.subrange(592, 624)[k - 592]);
        }
    }
    assert(a =~= b);
}

} // verus!
