//! The Call ID service table: which component serves which Call IDs, and by
//! which route.

use crate::error::{DecodeError, TagField};
use crate::message::{call_word, lemma_word_determines_message_id, CallId, MessageId};
use crate::tables::header::{
    lemma_header_determines_image, lemma_image_determines_header, GeneralHeader,
    GENERAL_HEADER_SIZE,
};
use crate::user::{
    lemma_word_determines_user_id, user_slot_wf, user_word, word_of_slot, UserId,
};
use crate::wire::{
    grown_by, le_u32, lemma_le_u32_injective, push_array, push_u32, read_array, read_u32,
};
use vstd::prelude::*;

verus! {

/// The number of Call ID entries of a group, and of groups of a table.
pub const CALL_ID_SERVICE_CAPACITY: usize = 512;

/// The size in bytes of a group: 8 bytes, 512 Call ID entries and the
/// forwarder.
pub const CALL_ID_SERVICE_GROUP_SIZE: usize = 2060;

/// The size in bytes of the trailing UB record.
pub const CALL_ID_SERVICE_UB_SIZE: usize = 8;

/// The offset of the trailing UB record: behind the header and 512 groups.
pub const CALL_ID_SERVICE_UB_OFFSET: usize = 1054752;

/// The size in bytes of the Call ID service table.
pub const CALL_ID_SERVICE_TABLE_SIZE: usize = 1054760;

/// UBIOS Call ID service object description header field.
#[derive(Clone, Debug, PartialEq, Eq, Hash)]
pub struct CallIdServiceOdHeader(pub GeneralHeader);

/// UBIOS Call ID service group usage type.
#[derive(Clone, Copy, Debug, PartialEq, Eq, Hash, Structural)]
pub enum CallIdServiceGroupUsageType {
    /// Not supported, not currently in use, but may be used in the future to
    /// dynamically disable the Call ID service (tag 0).
    Unsupported,
    /// Use ISA to make the call (tag 1).
    IsaCall,
    /// Use UVB (tag 2).
    Uvb,
    /// Reserved (tag 3).
    Reserved,
    /// Undefined, typically used by device firmware (tag 4).
    Undefined,
}

impl CallIdServiceGroupUsageType {
    /// The tag byte of this usage type.
    pub open spec fn tag_of(self) -> u8 {
        match self {
            CallIdServiceGroupUsageType::Unsupported => 0,
            CallIdServiceGroupUsageType::IsaCall => 1,
            CallIdServiceGroupUsageType::Uvb => 2,
            CallIdServiceGroupUsageType::Reserved => 3,
            CallIdServiceGroupUsageType::Undefined => 4,
        }
    }

    /// Whether `byte` is the tag of a usage type.
    pub open spec fn is_tag(byte: u8) -> bool {
        byte <= 4
    }

    /// The tag byte of this usage type.
    pub fn tag(self) -> (byte: u8)
        ensures
            byte == self.tag_of(),
            Self::is_tag(byte),
    {
        match self {
            CallIdServiceGroupUsageType::Unsupported => 0,
            CallIdServiceGroupUsageType::IsaCall => 1,
            CallIdServiceGroupUsageType::Uvb => 2,
            CallIdServiceGroupUsageType::Reserved => 3,
            CallIdServiceGroupUsageType::Undefined => 4,
        }
    }

    /// The usage type with tag `byte`, if there is one.
    pub fn from_tag(byte: u8) -> (kind: Option<CallIdServiceGroupUsageType>)
        ensures
            match kind {
                Some(k) => Self::is_tag(byte) && k.tag_of() == byte,
                None => !Self::is_tag(byte),
            },
    {
        match byte {
            0 => Some(CallIdServiceGroupUsageType::Unsupported),
            1 => Some(CallIdServiceGroupUsageType::IsaCall),
            2 => Some(CallIdServiceGroupUsageType::Uvb),
            3 => Some(CallIdServiceGroupUsageType::Reserved),
            4 => Some(CallIdServiceGroupUsageType::Undefined),
            _ => None,
        }
    }
}

/// The error for an unknown usage type tag `value` at `offset`.
pub open spec fn unknown_usage(offset: int, value: u8) -> DecodeError {
    DecodeError::UnknownTag { field: TagField::UsageType, offset: offset as usize, value }
}

/// UBIOS Call ID service object description group struct.
///
/// | offset    | size | field        |
/// |-----------|------|--------------|
/// | 0         | 4    | `owner`      |
/// | 4         | 1    | `usage`      |
/// | 5         | 1    | `index`      |
/// | 6         | 2    | `reserved`   |
/// | 8 + 4 * i | 4    | `call_id[i]` |
/// | 2056      | 4    | `forwarder`  |
///
/// A user identifier field that holds zero names no user: it decodes to
/// `None`. A Call ID entry holds a message identifier word; whether it is a
/// Call ID is for [`CallIdServiceOdGroup::call_id_at`] to tell.
#[derive(Clone, Debug, PartialEq, Eq, Hash)]
pub struct CallIdServiceOdGroup {
    /// The User ID of the component to which this group belongs.
    pub owner: Option<UserId>,
    /// Indicates the usage type of this group.
    pub usage: CallIdServiceGroupUsageType,
    /// When more than one item has the same usage, tells the one to use. If
    /// UVB is used, it is the index of the UVB.
    pub index: u8,
    /// Reserved field.
    pub reserved: [u8; 2],
    /// Indicates which Call IDs the component supports.
    pub call_id: [MessageId; 512],
    /// Instructs the specific component to forward the message.
    pub forwarder: Option<UserId>,
}

impl CallIdServiceOdGroup {
    /// Whether the user identifiers of this group are proper ones.
    pub open spec fn wf(self) -> bool {
        user_slot_wf(self.owner) && user_slot_wf(self.forwarder)
    }

    /// Whether the 2060 bytes `image` hold this group.
    pub open spec fn is_image(self, image: Seq<u8>) -> bool {
        &&& image.len() == CALL_ID_SERVICE_GROUP_SIZE
        &&& le_u32(image, 0) == user_word(self.owner)
        &&& image[4] == self.usage.tag_of()
        &&& image[5] == self.index
        &&& image.subrange(6, 8) =~= self.reserved@
        &&& forall|i: int|
            0 <= i < CALL_ID_SERVICE_CAPACITY ==> le_u32(image, 8 + 4 * i) == (
            #[trigger] self.call_id@[i])@
        &&& le_u32(image, 2056) == user_word(self.forwarder)
    }

    /// The unknown usage type tag of `image`; `None` when the tag is known.
    pub open spec fn tag_fault(image: Seq<u8>) -> Option<DecodeError> {
        if !CallIdServiceGroupUsageType::is_tag(image[4]) {
            Some(unknown_usage(4, image[4]))
        } else {
            None
        }
    }

    /// Entry `index` of the group as a Call ID: `None` when the entry is no
    /// Call ID, and when `index` is 512 or more.
    pub fn call_id_at(&self, index: usize) -> (call: Option<CallId>)
        ensures
            match call {
                Some(c) => index < CALL_ID_SERVICE_CAPACITY && call_word(
                    self.call_id@[index as int]@,
                ) == Some(c@),
                None => index >= CALL_ID_SERVICE_CAPACITY || call_word(
                    self.call_id@[index as int]@,
                ) is None,
            },
    {
        if index < CALL_ID_SERVICE_CAPACITY {
            self.call_id[index].call_id()
        } else {
            None
        }
    }

    /// Reads the group at `bytes[at..at + 2060]`.
    pub(crate) fn parse(bytes: &[u8], at: usize) -> (parsed: Result<
        CallIdServiceOdGroup,
        DecodeError,
    >)
        requires
            at + CALL_ID_SERVICE_GROUP_SIZE <= bytes.len(),
        ensures
            match parsed {
                Ok(group) => Self::tag_fault(
                    bytes@.subrange(at as int, at + CALL_ID_SERVICE_GROUP_SIZE),
                ) is None && group.wf() && group.is_image(
                    bytes@.subrange(at as int, at + CALL_ID_SERVICE_GROUP_SIZE),
                ),
                Err(error) => Self::tag_fault(
                    bytes@.subrange(at as int, at + CALL_ID_SERVICE_GROUP_SIZE),
                ) == Some(error),
            },
    {
        let ghost image = bytes@.subrange(at as int, at + CALL_ID_SERVICE_GROUP_SIZE);
        let usage = match CallIdServiceGroupUsageType::from_tag(bytes[at + 4]) {
            Some(kind) => kind,
            None => {
                return Err(
                    DecodeError::UnknownTag {
                        field: TagField::UsageType,
                        offset: 4,
                        value: bytes[at + 4],
                    },
                );
            },
        };
        let owner = UserId::new(read_u32(bytes, at));
        let forwarder = UserId::new(read_u32(bytes, at + 2056));
        let mut call_id: [MessageId; 512] = [MessageId::from_raw(0); 512];
        let mut i: usize = 0;
        while i < CALL_ID_SERVICE_CAPACITY
            invariant
                i <= CALL_ID_SERVICE_CAPACITY,
                at + CALL_ID_SERVICE_GROUP_SIZE <= bytes.len(),
                image == bytes@.subrange(at as int, at + CALL_ID_SERVICE_GROUP_SIZE),
                forall|j: int| 0 <= j < i ==> le_u32(image, 8 + 4 * j) == (#[trigger] call_id@[j])@,
            decreases CALL_ID_SERVICE_CAPACITY - i,
        {
            let word = read_u32(bytes, at + 8 + 4 * i);
            call_id[i] = MessageId::from_raw(word);
            i += 1;
        }
        Ok(
            CallIdServiceOdGroup {
                owner,
                usage,
                index: bytes[at + 5],
                reserved: read_array::<2>(bytes, at + 6),
                call_id,
                forwarder,
            },
        )
    }

    /// Appends the 2060 bytes of this group.
    pub(crate) fn write(&self, out: &mut Vec<u8>)
        ensures
            grown_by(final(out)@, old(out)@, CALL_ID_SERVICE_GROUP_SIZE as int),
            self.is_image(
                final(out)@.subrange(
                    old(out)@.len() as int,
                    old(out)@.len() + CALL_ID_SERVICE_GROUP_SIZE,
                ),
            ),
    {
        let ghost start = out@.len() as int;
        push_u32(out, word_of_slot(self.owner));
        out.push(self.usage.tag());
        out.push(self.index);
        push_array::<2>(out, &self.reserved);
        let ghost head = out@;
        let mut i: usize = 0;
        while i < CALL_ID_SERVICE_CAPACITY
            invariant
                i <= CALL_ID_SERVICE_CAPACITY,
                start + 8 == head.len(),
                grown_by(out@, head, 4 * i),
                forall|j: int|
                    0 <= j < i ==> le_u32(out@, start + 8 + 4 * j) == (#[trigger] self.call_id@[j])@,
            decreases CALL_ID_SERVICE_CAPACITY - i,
        {
            push_u32(out, self.call_id[i].raw());
            i += 1;
        }
        let ghost body = out@;
        push_u32(out, word_of_slot(self.forwarder));
        let ghost image = out@.subrange(start, start + CALL_ID_SERVICE_GROUP_SIZE);
        assert(image.subrange(6, 8) =~= head.subrange(start + 6, start + 8));
        assert forall|j: int| 0 <= j < CALL_ID_SERVICE_CAPACITY implies le_u32(image, 8 + 4 * j)
            == (#[trigger] self.call_id@[j])@ by {
            assert(le_u32(image, 8 + 4 * j) == le_u32(body, start + 8 + 4 * j));
        }
    }
}

/// UBIOS Call ID service ub.
///
/// | offset | size | field       |
/// |--------|------|-------------|
/// | 0      | 1    | `usage`     |
/// | 1      | 1    | `index`     |
/// | 2      | 2    | `reserved`  |
/// | 4      | 4    | `forwarder` |
#[derive(Clone, Debug, PartialEq, Eq, Hash)]
pub struct CallIdServiceUb {
    /// The usage type, as in a group.
    pub usage: CallIdServiceGroupUsageType,
    /// The index, as in a group.
    pub index: u8,
    /// Reserved field.
    pub reserved: [u8; 2],
    /// The forwarder, as in a group.
    pub forwarder: Option<UserId>,
}

impl CallIdServiceUb {
    /// Whether the user identifier of this record is a proper one.
    pub open spec fn wf(self) -> bool {
        user_slot_wf(self.forwarder)
    }

    /// Whether the 8 bytes `image` hold this record.
    pub open spec fn is_image(self, image: Seq<u8>) -> bool {
        &&& image.len() == CALL_ID_SERVICE_UB_SIZE
        &&& image[0] == self.usage.tag_of()
        &&& image[1] == self.index
        &&& image.subrange(2, 4) =~= self.reserved@
        &&& le_u32(image, 4) == user_word(self.forwarder)
    }

    /// The unknown usage type tag of `image`; `None` when the tag is known.
    pub open spec fn tag_fault(image: Seq<u8>) -> Option<DecodeError> {
        if !CallIdServiceGroupUsageType::is_tag(image[0]) {
            Some(unknown_usage(0, image[0]))
        } else {
            None
        }
    }

    /// Reads the record at `bytes[at..at + 8]`.
    pub(crate) fn parse(bytes: &[u8], at: usize) -> (parsed: Result<CallIdServiceUb, DecodeError>)
        requires
            at + CALL_ID_SERVICE_UB_SIZE <= bytes.len(),
        ensures
            match parsed {
                Ok(ub) => Self::tag_fault(
                    bytes@.subrange(at as int, at + CALL_ID_SERVICE_UB_SIZE),
                ) is None && ub.wf() && ub.is_image(
                    bytes@.subrange(at as int, at + CALL_ID_SERVICE_UB_SIZE),
                ),
                Err(error) => Self::tag_fault(
                    bytes@.subrange(at as int, at + CALL_ID_SERVICE_UB_SIZE),
                ) == Some(error),
            },
    {
        let usage = match CallIdServiceGroupUsageType::from_tag(bytes[at]) {
            Some(kind) => kind,
            None => {
                return Err(
                    DecodeError::UnknownTag {
                        field: TagField::UsageType,
                        offset: 0,
                        value: bytes[at],
                    },
                );
            },
        };
        Ok(
            CallIdServiceUb {
                usage,
                index: bytes[at + 1],
                reserved: read_array::<2>(bytes, at + 2),
                forwarder: UserId::new(read_u32(bytes, at + 4)),
            },
        )
    }

    /// Appends the 8 bytes of this record.
    pub(crate) fn write(&self, out: &mut Vec<u8>)
        ensures
            grown_by(final(out)@, old(out)@, CALL_ID_SERVICE_UB_SIZE as int),
            self.is_image(
                final(out)@.subrange(
                    old(out)@.len() as int,
                    old(out)@.len() + CALL_ID_SERVICE_UB_SIZE,
                ),
            ),
    {
        out.push(self.usage.tag());
        out.push(self.index);
        push_array::<2>(out, &self.reserved);
        push_u32(out, word_of_slot(self.forwarder));
    }
}

/// UBIOS Call ID service table: the header, 512 groups and the UB record.
///
/// | offset        | size | field       |
/// |---------------|------|-------------|
/// | 0             | 32   | `header`    |
/// | 32 + 2060 * i | 2060 | `groups[i]` |
/// | 1054752       | 8    | `ub`        |
#[derive(Debug, PartialEq, Eq, Hash)]
pub struct CallIdServiceTable {
    header: CallIdServiceOdHeader,
    groups: Vec<CallIdServiceOdGroup>,
    ub: CallIdServiceUb,
}

/// What a Call ID service table holds: its header, its groups in order and
/// its UB record.
pub struct CallIdServiceTableView {
    /// The Call ID Service Object Description Header.
    pub header: CallIdServiceOdHeader,
    /// The Call ID Service Object Description Groups.
    pub groups: Seq<CallIdServiceOdGroup>,
    /// The Call ID Service Ub.
    pub ub: CallIdServiceUb,
}

impl CallIdServiceTableView {
    /// The bytes of group `index` in the image of a table.
    pub open spec fn group_image(image: Seq<u8>, index: int) -> Seq<u8> {
        image.subrange(
            GENERAL_HEADER_SIZE + CALL_ID_SERVICE_GROUP_SIZE * index,
            GENERAL_HEADER_SIZE + CALL_ID_SERVICE_GROUP_SIZE * (index + 1),
        )
    }

    /// The bytes of the UB record in the image of a table.
    pub open spec fn ub_image(image: Seq<u8>) -> Seq<u8> {
        image.subrange(CALL_ID_SERVICE_UB_OFFSET as int, CALL_ID_SERVICE_TABLE_SIZE as int)
    }

    /// Whether the table has its 512 groups, and all its user identifiers are
    /// proper ones.
    pub open spec fn wf(self) -> bool {
        &&& self.groups.len() == CALL_ID_SERVICE_CAPACITY
        &&& forall|i: int| 0 <= i < CALL_ID_SERVICE_CAPACITY ==> (#[trigger] self.groups[i]).wf()
        &&& self.ub.wf()
    }

    /// Whether the 1054760 bytes `image` hold this table.
    pub open spec fn is_image(self, image: Seq<u8>) -> bool {
        &&& image.len() == CALL_ID_SERVICE_TABLE_SIZE
        &&& self.groups.len() == CALL_ID_SERVICE_CAPACITY
        &&& self.header.0.is_image(image.subrange(0, GENERAL_HEADER_SIZE as int))
        &&& forall|i: int|
            0 <= i < CALL_ID_SERVICE_CAPACITY ==> (#[trigger] self.groups[i]).is_image(
                Self::group_image(image, i),
            )
        &&& self.ub.is_image(Self::ub_image(image))
    }

    /// The unknown usage type tag of group `index`, with its offset counted
    /// from the start of the table; `None` when the tag is known.
    pub open spec fn group_fault(image: Seq<u8>, index: int) -> Option<DecodeError> {
        match CallIdServiceOdGroup::tag_fault(Self::group_image(image, index)) {
            Some(error) => Some(
                error.moved(GENERAL_HEADER_SIZE + CALL_ID_SERVICE_GROUP_SIZE * index),
            ),
            None => None,
        }
    }

    /// The unknown usage type tag of the UB record, with its offset counted
    /// from the start of the table; `None` when the tag is known.
    pub open spec fn ub_fault(image: Seq<u8>) -> Option<DecodeError> {
        match CallIdServiceUb::tag_fault(Self::ub_image(image)) {
            Some(error) => Some(error.moved(CALL_ID_SERVICE_UB_OFFSET as int)),
            None => None,
        }
    }

    /// Whether all usage type tags of `image` are known.
    pub open spec fn tags_known(image: Seq<u8>) -> bool {
        &&& forall|i: int|
            0 <= i < CALL_ID_SERVICE_CAPACITY ==> #[trigger] Self::group_fault(image, i) is None
        &&& Self::ub_fault(image) is None
    }

    /// Whether `error` tells the first unknown usage type tag of `image`: that
    /// of the first faulty group, or that of the UB record when no group is
    /// faulty.
    pub open spec fn first_fault(image: Seq<u8>, error: DecodeError) -> bool {
        ||| exists|i: int|
            0 <= i < CALL_ID_SERVICE_CAPACITY && #[trigger] Self::group_fault(image, i) == Some(
                error,
            ) && forall|j: int| 0 <= j < i ==> #[trigger] Self::group_fault(image, j) is None
        ||| (Self::ub_fault(image) == Some(error) && forall|j: int|
            0 <= j < CALL_ID_SERVICE_CAPACITY ==> #[trigger] Self::group_fault(image, j) is None)
    }
}

impl View for CallIdServiceTable {
    type V = CallIdServiceTableView;

    closed spec fn view(&self) -> CallIdServiceTableView {
        CallIdServiceTableView { header: self.header, groups: self.groups@, ub: self.ub }
    }
}

impl Clone for CallIdServiceTable {
    /// A table with the same header, groups and UB record.
    fn clone(&self) -> (copy: CallIdServiceTable)
        ensures
            copy@ == self@,
    {
        proof {
            use_type_invariant(self);
        }
        let name = self.header.0.name;
        let reserved = self.header.0.reserved;
        let header = CallIdServiceOdHeader(
            GeneralHeader {
                name,
                size: self.header.0.size,
                version: self.header.0.version,
                reserved,
                remain_size: self.header.0.remain_size,
                checksum: self.header.0.checksum,
            },
        );
        let mut groups: Vec<CallIdServiceOdGroup> = Vec::new();
        let mut i: usize = 0;
        while i < CALL_ID_SERVICE_CAPACITY
            invariant
                i <= CALL_ID_SERVICE_CAPACITY,
                self.groups@.len() == CALL_ID_SERVICE_CAPACITY,
                groups@.len() == i,
                forall|j: int| 0 <= j < i ==> groups@[j] == self.groups@[j],
            decreases CALL_ID_SERVICE_CAPACITY - i,
        {
            let from = &self.groups[i];
            let reserved = from.reserved;
            let call_id = from.call_id;
            groups.push(
                CallIdServiceOdGroup {
                    owner: from.owner,
                    usage: from.usage,
                    index: from.index,
                    reserved,
                    call_id,
                    forwarder: from.forwarder,
                },
            );
            i += 1;
        }
        assert(groups@ =~= self.groups@);
        let reserved = self.ub.reserved;
        let ub = CallIdServiceUb {
            usage: self.ub.usage,
            index: self.ub.index,
            reserved,
            forwarder: self.ub.forwarder,
        };
        CallIdServiceTable { header, groups, ub }
    }
}

impl CallIdServiceTable {
    #[verifier::type_invariant]
    spec fn full(self) -> bool {
        self.groups@.len() == CALL_ID_SERVICE_CAPACITY
    }

    /// Makes a table of a header, 512 groups and a UB record. Returns `None`
    /// when `groups` does not hold exactly 512 groups.
    pub fn new(
        header: CallIdServiceOdHeader,
        groups: Vec<CallIdServiceOdGroup>,
        ub: CallIdServiceUb,
    ) -> (table: Option<CallIdServiceTable>)
        ensures
            match table {
                Some(t) => groups@.len() == CALL_ID_SERVICE_CAPACITY && t@.header == header
                    && t@.groups == groups@ && t@.ub == ub,
                None => groups@.len() != CALL_ID_SERVICE_CAPACITY,
            },
    {
        if groups.len() == CALL_ID_SERVICE_CAPACITY {
            Some(CallIdServiceTable { header, groups, ub })
        } else {
            None
        }
    }

    /// The Call ID Service Object Description Header.
    pub fn header(&self) -> (header: &CallIdServiceOdHeader)
        ensures
            *header == self@.header,
            self@.groups.len() == CALL_ID_SERVICE_CAPACITY,
    {
        proof {
            use_type_invariant(self);
        }
        &self.header
    }

    /// Group `index` of the table; `None` when `index` is 512 or more.
    pub fn group(&self, index: usize) -> (group: Option<&CallIdServiceOdGroup>)
        ensures
            self@.groups.len() == CALL_ID_SERVICE_CAPACITY,
            match group {
                Some(g) => index < CALL_ID_SERVICE_CAPACITY && *g == self@.groups[index as int],
                None => index >= CALL_ID_SERVICE_CAPACITY,
            },
    {
        proof {
            use_type_invariant(self);
        }
        if index < CALL_ID_SERVICE_CAPACITY {
            Some(&self.groups[index])
        } else {
            None
        }
    }

    /// The Call ID Service Ub.
    pub fn ub(&self) -> (ub: &CallIdServiceUb)
        ensures
            *ub == self@.ub,
            self@.groups.len() == CALL_ID_SERVICE_CAPACITY,
    {
        proof {
            use_type_invariant(self);
        }
        &self.ub
    }

    /// Decodes the Call ID service table at the start of `bytes`.
    ///
    /// Fails when `bytes` holds fewer than 1054760 bytes, and else when a
    /// usage type tag is unknown; the error tells the first such tag of the
    /// table.
    pub fn decode(bytes: &[u8]) -> (decoded: Result<CallIdServiceTable, DecodeError>)
        ensures
            match decoded {
                Ok(table) => {
                    &&& bytes@.len() >= CALL_ID_SERVICE_TABLE_SIZE
                    &&& CallIdServiceTableView::tags_known(
                        bytes@.subrange(0, CALL_ID_SERVICE_TABLE_SIZE as int),
                    )
                    &&& table@.wf()
                    &&& table@.is_image(bytes@.subrange(0, CALL_ID_SERVICE_TABLE_SIZE as int))
                },
                Err(error) => if bytes@.len() < CALL_ID_SERVICE_TABLE_SIZE {
                    error == (DecodeError::BufferTooShort {
                        needed: CALL_ID_SERVICE_TABLE_SIZE,
                        available: bytes@.len() as usize,
                    })
                } else {
                    CallIdServiceTableView::first_fault(
                        bytes@.subrange(0, CALL_ID_SERVICE_TABLE_SIZE as int),
                        error,
                    )
                },
            },
    {
        if bytes.len() < CALL_ID_SERVICE_TABLE_SIZE {
            return Err(
                DecodeError::BufferTooShort {
                    needed: CALL_ID_SERVICE_TABLE_SIZE,
                    available: bytes.len(),
                },
            );
        }
        let ghost image = bytes@.subrange(0, CALL_ID_SERVICE_TABLE_SIZE as int);
        let header = CallIdServiceOdHeader(GeneralHeader::parse(bytes, 0));
        assert(image.subrange(0, GENERAL_HEADER_SIZE as int) =~= bytes@.subrange(
            0,
            GENERAL_HEADER_SIZE as int,
        ));
        let mut groups: Vec<CallIdServiceOdGroup> = Vec::new();
        let mut i: usize = 0;
        while i < CALL_ID_SERVICE_CAPACITY
            invariant
                i <= CALL_ID_SERVICE_CAPACITY,
                CALL_ID_SERVICE_TABLE_SIZE <= bytes.len(),
                image == bytes@.subrange(0, CALL_ID_SERVICE_TABLE_SIZE as int),
                groups@.len() == i,
                forall|j: int|
                    0 <= j < i ==> #[trigger] CallIdServiceTableView::group_fault(image, j) is None,
                forall|j: int| 0 <= j < i ==> (#[trigger] groups@[j]).wf(),
                forall|j: int|
                    0 <= j < i ==> (#[trigger] groups@[j]).is_image(
                        CallIdServiceTableView::group_image(image, j),
                    ),
            decreases CALL_ID_SERVICE_CAPACITY - i,
        {
            let at: usize = GENERAL_HEADER_SIZE + CALL_ID_SERVICE_GROUP_SIZE * i;
            assert(CallIdServiceTableView::group_image(image, i as int) =~= bytes@.subrange(
                at as int,
                at + CALL_ID_SERVICE_GROUP_SIZE,
            ));
            match CallIdServiceOdGroup::parse(bytes, at) {
                Ok(group) => {
                    groups.push(group);
                },
                Err(error) => {
                    let moved = error.rebase(at);
                    assert(CallIdServiceTableView::group_fault(image, i as int) == Some(moved));
                    return Err(moved);
                },
            }
            i += 1;
        }
        assert(CallIdServiceTableView::ub_image(image) =~= bytes@.subrange(
            CALL_ID_SERVICE_UB_OFFSET as int,
            CALL_ID_SERVICE_UB_OFFSET + CALL_ID_SERVICE_UB_SIZE,
        ));
        match CallIdServiceUb::parse(bytes, CALL_ID_SERVICE_UB_OFFSET) {
            Ok(ub) => Ok(CallIdServiceTable { header, groups, ub }),
            Err(error) => {
                let moved = error.rebase(CALL_ID_SERVICE_UB_OFFSET);
                assert(CallIdServiceTableView::ub_fault(image) == Some(moved));
                Err(moved)
            },
        }
    }

    /// Encodes this table as its 1054760 bytes.
    pub fn encode(&self) -> (image: Vec<u8>)
        ensures
            self@.is_image(image@),
    {
        proof {
            use_type_invariant(self);
        }
        let mut image: Vec<u8> = Vec::new();
        self.header.0.write(&mut image);
        let ghost header_image = image@;
        let mut i: usize = 0;
        while i < CALL_ID_SERVICE_CAPACITY
            invariant
                i <= CALL_ID_SERVICE_CAPACITY,
                self.groups@.len() == CALL_ID_SERVICE_CAPACITY,
                header_image.len() == GENERAL_HEADER_SIZE,
                image@.len() == GENERAL_HEADER_SIZE + CALL_ID_SERVICE_GROUP_SIZE * i,
                image@.subrange(0, GENERAL_HEADER_SIZE as int) =~= header_image,
                forall|j: int|
                    0 <= j < i ==> (#[trigger] self.groups@[j]).is_image(
                        CallIdServiceTableView::group_image(image@, j),
                    ),
            decreases CALL_ID_SERVICE_CAPACITY - i,
        {
            let ghost before = image@;
            self.groups[i].write(&mut image);
            assert(image@.subrange(0, GENERAL_HEADER_SIZE as int) =~= before.subrange(
                0,
                GENERAL_HEADER_SIZE as int,
            ));
            assert forall|j: int| 0 <= j < i + 1 implies (#[trigger] self.groups@[j]).is_image(
                CallIdServiceTableView::group_image(image@, j),
            ) by {
                if j < i {
                    assert(CallIdServiceTableView::group_image(image@, j)
                        =~= CallIdServiceTableView::group_image(before, j));
                } else {
                    assert(CallIdServiceTableView::group_image(image@, j) =~= image@.subrange(
                        before.len() as int,
                        before.len() + CALL_ID_SERVICE_GROUP_SIZE,
                    ));
                }
            }
            i += 1;
        }
        let ghost with_groups = image@;
        self.ub.write(&mut image);
        assert(header_image =~= header_image.subrange(0, GENERAL_HEADER_SIZE as int));
        assert(image@.subrange(0, GENERAL_HEADER_SIZE as int) =~= with_groups.subrange(
            0,
            GENERAL_HEADER_SIZE as int,
        ));
        assert forall|j: int| 0 <= j < CALL_ID_SERVICE_CAPACITY implies (
        #[trigger] self.groups@[j]).is_image(CallIdServiceTableView::group_image(image@, j)) by {
            assert(CallIdServiceTableView::group_image(image@, j)
                =~= CallIdServiceTableView::group_image(with_groups, j));
        }
        assert(CallIdServiceTableView::ub_image(image@) =~= image@.subrange(
            with_groups.len() as int,
            with_groups.len() + CALL_ID_SERVICE_UB_SIZE,
        ));
        image
    }
}

/// No 2060 bytes hold two proper groups.
pub proof fn lemma_image_determines_group(
    a: CallIdServiceOdGroup,
    b: CallIdServiceOdGroup,
    image: Seq<u8>,
)
    requires
        a.wf(),
        b.wf(),
        a.is_image(image),
        b.is_image(image),
    ensures
        a == b,
{
    lemma_word_determines_user_id(a.owner, b.owner);
    lemma_word_determines_user_id(a.forwarder, b.forwarder);
    assert(a.reserved =~= b.reserved);
    assert forall|i: int| 0 <= i < 512 implies a.call_id[i] == b.call_id[i] by {
        lemma_word_determines_message_id(a.call_id@[i], b.call_id@[i]);
    }
    assert(a.call_id =~= b.call_id);
}

/// No group has two images.
pub proof fn lemma_group_determines_image(group: CallIdServiceOdGroup, a: Seq<u8>, b: Seq<u8>)
    requires
        group.is_image(a),
        group.is_image(b),
    ensures
        a == b,
{
    lemma_le_u32_injective(a, 0, b, 0);
    lemma_le_u32_injective(a, 2056, b, 2056);
    assert forall|k: int| 0 <= k < 2060 implies a[k] == b[k] by {
        if k < 6 {
        } else if k < 8 {
            assert(a.subrange(6, 8)[k - 6] == b.subrange(6, 8)[k - 6]);
        } else if k < 2056 {
            let i = (k - 8) / 4;
            assert(le_u32(a, 8 + 4 * i) == group.call_id@[i]@);
            assert(le_u32(b, 8 + 4 * i) == group.call_id@[i]@);
            lemma_le_u32_injective(a, 8 + 4 * i, b, 8 + 4 * i);
        }
    }
    assert(a =~= b);
}

/// No 8 bytes hold two proper UB records.
pub proof fn lemma_image_determines_ub(a: CallIdServiceUb, b: CallIdServiceUb, image: Seq<u8>)
    requires
        a.wf(),
        b.wf(),
        a.is_image(image),
        b.is_image(image),
    ensures
        a == b,
{
    lemma_word_determines_user_id(a.forwarder, b.forwarder);
    assert(a.reserved =~= b.reserved);
}

/// No UB record has two images.
pub proof fn lemma_ub_determines_image(ub: CallIdServiceUb, a: Seq<u8>, b: Seq<u8>)
    requires
        ub.is_image(a),
        ub.is_image(b),
    ensures
        a == b,
{
    lemma_le_u32_injective(a, 4, b, 4);
    assert forall|k: int| 0 <= k < 8 implies a[k] == b[k] by {
        if 2 <= k < 4 {
            assert(a.subrange(2, 4)[k - 2] == b.subrange(2, 4)[k - 2]);
        }
    }
    assert(a =~= b);
}

/// No 1054760 bytes hold two proper Call ID service tables: what `decode`
/// returns for the bytes that `encode` made of a table is a table with the
/// same header, groups and UB record.
pub proof fn lemma_image_determines_call_id_service_table(
    a: CallIdServiceTableView,
    b: CallIdServiceTableView,
    image: Seq<u8>,
)
    requires
        a.wf(),
        b.wf(),
        a.is_image(image),
        b.is_image(image),
    ensures
        a == b,
{
    lemma_image_determines_header(a.header.0, b.header.0, image.subrange(0, 32));
    lemma_image_determines_ub(a.ub, b.ub, CallIdServiceTableView::ub_image(image));
    assert forall|i: int| 0 <= i < 512 implies a.groups[i] == b.groups[i] by {
        lemma_image_determines_group(
            a.groups[i],
            b.groups[i],
            CallIdServiceTableView::group_image(image, i),
        );
    }
    assert(a.groups =~= b.groups);
}

/// No Call ID service table has two images: what `encode` makes of a decoded
/// table is the 1054760 bytes that it was decoded from, reserved bytes
/// included.
pub proof fn lemma_call_id_service_table_determines_image(
    table: CallIdServiceTableView,
    a: Seq<u8>,
    b: Seq<u8>,
)
    requires
        table.is_image(a),
        table.is_image(b),
    ensures
        a == b,
{
    lemma_header_determines_image(table.header.0, a.subrange(0, 32), b.subrange(0, 32));
    lemma_ub_determines_image(
        table.ub,
        CallIdServiceTableView::ub_image(a),
        CallIdServiceTableView::ub_image(b),
    );
    assert forall|k: int| 0 <= k < 1054760 implies a[k] == b[k] by {
        if k < 32 {
            assert(a.subrange(0, 32)[k] == b.subrange(0, 32)[k]);
        } else if k < 1054752 {
            let i = (k - 32) / 2060;
            lemma_group_determines_image(
                table.groups[i],
                CallIdServiceTableView::group_image(a, i),
                CallIdServiceTableView::group_image(b, i),
            );
            assert(CallIdServiceTableView::group_image(a, i)[k - 32 - 2060 * i] == a[k]);
            assert(CallIdServiceTableView::group_image(b, i)[k - 32 - 2060 * i] == b[k]);
        } else {
            assert(CallIdServiceTableView::ub_image(a)[k - 1054752] == a[k]);
            assert(CallIdServiceTableView::ub_image(b)[k - 1054752] == b[k]);
        }
    }
    assert(a =~= b);
}

} // verus!
