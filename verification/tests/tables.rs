use ubios::{
    CallIdServiceGroupUsageType, CallIdServiceOdGroup, CallIdServiceOdHeader, CallIdServiceTable,
    CallIdServiceUb, DecodeError, GeneralHeader, IsaCallBufferType, IsaCallHeader, IsaCallTable,
    MemoryMapRegionTable, MemoryMapTable, MemoryRegionType, MemoryReliability, MessageId,
    NotifyInfoIrq, NotifyInfoIrqClear, NotifyInfoOdHeader, NotifyInfoRingBuffer,
    NotifyInfoRingBufferData, NotifyInfoTable, RootTable, TagField, UserId, UvbOdHeader,
    UvbOdMember, UvbTable, UvbWindowDescript,
};

fn sample_header_bytes() -> Vec<u8> {
    let mut bytes = Vec::new();
    bytes.extend_from_slice(b"root_table\0\0\0\0\0\0");
    bytes.extend_from_slice(&[0x28, 0x00, 0x00, 0x00]);
    bytes.push(0x01);
    bytes.extend_from_slice(&[0xA1, 0xA2, 0xA3]);
    bytes.extend_from_slice(&[0x78, 0x56, 0x34, 0x12]);
    bytes.extend_from_slice(&[0xEF, 0xBE, 0xAD, 0xDE]);
    bytes
}

fn sample_header() -> GeneralHeader {
    GeneralHeader {
        name: *b"root_table\0\0\0\0\0\0",
        size: 0x28,
        version: 1,
        reserved: [0xA1, 0xA2, 0xA3],
        remain_size: 0x1234_5678,
        checksum: 0xDEAD_BEEF,
    }
}

fn patterned(len: usize) -> Vec<u8> {
    let mut bytes = Vec::with_capacity(len);
    let mut state: u32 = 0x1357_9BDF;
    for _ in 0..len {
        state = state.wrapping_mul(1_664_525).wrapping_add(1_013_904_223);
        bytes.push((state >> 24) as u8);
    }
    bytes
}

#[test]
fn header_decodes_field_by_field() {
    let bytes = sample_header_bytes();
    assert_eq!(bytes.len(), 32);
    assert_eq!(GeneralHeader::decode(&bytes), Ok(sample_header()));
}

#[test]
fn header_encodes_to_the_same_bytes() {
    assert_eq!(sample_header().encode(), sample_header_bytes());
}

#[test]
fn header_decode_rejects_a_short_buffer() {
    let bytes = sample_header_bytes();
    assert_eq!(
        GeneralHeader::decode(&bytes[..31]),
        Err(DecodeError::BufferTooShort { needed: 32, available: 31 })
    );
    assert_eq!(
        GeneralHeader::decode(&[]),
        Err(DecodeError::BufferTooShort { needed: 32, available: 0 })
    );
}

#[test]
fn header_decode_ignores_what_follows() {
    let mut bytes = sample_header_bytes();
    bytes.extend_from_slice(&[0xFF; 9]);
    assert_eq!(GeneralHeader::decode(&bytes), Ok(sample_header()));
}

#[test]
fn header_round_trips_any_bytes() {
    let bytes = patterned(32);
    let header = GeneralHeader::decode(&bytes).unwrap();
    assert_eq!(header.encode(), bytes);
}

#[test]
fn root_table_decodes_and_encodes() {
    let mut bytes = sample_header_bytes();
    bytes.extend_from_slice(&[0x34, 0x12]);
    bytes.extend_from_slice(&[1, 2, 3, 4, 5, 6]);
    let table = RootTable { header: sample_header(), count: 0x1234, reserved: [1, 2, 3, 4, 5, 6] };
    assert_eq!(RootTable::decode(&bytes), Ok(table.clone()));
    assert_eq!(table.encode(), bytes);
}

#[test]
fn root_table_decode_rejects_a_short_buffer() {
    let bytes = patterned(39);
    assert_eq!(
        RootTable::decode(&bytes),
        Err(DecodeError::BufferTooShort { needed: 40, available: 39 })
    );
}

fn sample_region_bytes() -> Vec<u8> {
    let mut bytes = Vec::new();
    bytes.extend_from_slice(&[0x00, 0x00, 0x00, 0x80, 0x01, 0x00, 0x00, 0x00]);
    bytes.extend_from_slice(&[0x00, 0x10, 0x00, 0x00, 0x00, 0x00, 0x00, 0x00]);
    bytes.push(3);
    bytes.push(0xFF);
    bytes.push(1);
    bytes.extend_from_slice(&[9, 8, 7, 6, 5]);
    bytes
}

fn sample_region() -> MemoryMapRegionTable {
    MemoryMapRegionTable {
        base: 0x1_8000_0000,
        size: 0x1000,
        region_type: MemoryRegionType::Shared,
        reliability: MemoryReliability::Low,
        hot_plug: true,
        reserved: [9, 8, 7, 6, 5],
    }
}

#[test]
fn region_decodes_and_encodes() {
    let bytes = sample_region_bytes();
    assert_eq!(bytes.len(), 24);
    assert_eq!(MemoryMapRegionTable::decode(&bytes), Ok(sample_region()));
    assert_eq!(sample_region().encode(), bytes);
}

#[test]
fn region_decode_rejects_a_short_buffer() {
    let bytes = sample_region_bytes();
    assert_eq!(
        MemoryMapRegionTable::decode(&bytes[..23]),
        Err(DecodeError::BufferTooShort { needed: 24, available: 23 })
    );
}

#[test]
fn region_decode_rejects_an_unknown_region_type() {
    let mut bytes = sample_region_bytes();
    bytes[16] = 7;
    assert_eq!(
        MemoryMapRegionTable::decode(&bytes),
        Err(DecodeError::UnknownTag { field: TagField::RegionType, offset: 16, value: 7 })
    );
}

#[test]
fn region_decode_rejects_an_unknown_reliability() {
    let mut bytes = sample_region_bytes();
    bytes[17] = 2;
    assert_eq!(
        MemoryMapRegionTable::decode(&bytes),
        Err(DecodeError::UnknownTag { field: TagField::Reliability, offset: 17, value: 2 })
    );
}

#[test]
fn region_decode_rejects_an_unknown_hot_plug_flag() {
    let mut bytes = sample_region_bytes();
    bytes[18] = 2;
    assert_eq!(
        MemoryMapRegionTable::decode(&bytes),
        Err(DecodeError::UnknownTag { field: TagField::HotPlug, offset: 18, value: 2 })
    );
}

#[test]
fn region_decode_reports_the_first_unknown_tag() {
    let mut bytes = sample_region_bytes();
    bytes[16] = 0x80;
    bytes[17] = 0x80;
    bytes[18] = 0x80;
    assert_eq!(
        MemoryMapRegionTable::decode(&bytes),
        Err(DecodeError::UnknownTag { field: TagField::RegionType, offset: 16, value: 0x80 })
    );
    bytes[16] = 0;
    assert_eq!(
        MemoryMapRegionTable::decode(&bytes),
        Err(DecodeError::UnknownTag { field: TagField::Reliability, offset: 17, value: 0x80 })
    );
}

#[test]
fn region_tags_are_the_wire_values() {
    let kinds = [
        (MemoryRegionType::Free, 0u8),
        (MemoryRegionType::Data, 1),
        (MemoryRegionType::Code, 2),
        (MemoryRegionType::Shared, 3),
        (MemoryRegionType::Reserved, 4),
        (MemoryRegionType::Disabled, 5),
        (MemoryRegionType::Device, 6),
    ];
    for (kind, tag) in kinds {
        assert_eq!(kind.tag(), tag);
        assert_eq!(MemoryRegionType::from_tag(tag), Some(kind));
    }
    assert_eq!(MemoryRegionType::from_tag(7), None);
    let levels = [
        (MemoryReliability::Normal, 0u8),
        (MemoryReliability::High, 1),
        (MemoryReliability::Low, 0xFF),
    ];
    for (level, tag) in levels {
        assert_eq!(level.tag(), tag);
        assert_eq!(MemoryReliability::from_tag(tag), Some(level));
    }
    assert_eq!(MemoryReliability::from_tag(2), None);
    assert_eq!(MemoryReliability::from_tag(0xFE), None);
}

fn sample_memory_map_bytes() -> Vec<u8> {
    let mut bytes = sample_header_bytes();
    bytes.extend_from_slice(&sample_region_bytes());
    let mut second = sample_region_bytes();
    second[0] = 0x40;
    second[16] = 6;
    second[17] = 0;
    second[18] = 0;
    bytes.extend_from_slice(&second);
    bytes
}

#[test]
fn memory_map_decodes_its_regions_in_order() {
    let bytes = sample_memory_map_bytes();
    let table = MemoryMapTable::decode(&bytes, 2).unwrap();
    assert_eq!(table.header, sample_header());
    assert_eq!(table.regions.len(), 2);
    assert_eq!(table.regions[0], sample_region());
    assert_eq!(
        table.regions[1],
        MemoryMapRegionTable {
            base: 0x1_8000_0040,
            size: 0x1000,
            region_type: MemoryRegionType::Device,
            reliability: MemoryReliability::Normal,
            hot_plug: false,
            reserved: [9, 8, 7, 6, 5],
        }
    );
    assert_eq!(table.encode(), bytes);
}

#[test]
fn memory_map_without_regions_is_its_header() {
    let bytes = sample_header_bytes();
    let table = MemoryMapTable::decode(&bytes, 0).unwrap();
    assert_eq!(table.header, sample_header());
    assert!(table.regions.is_empty());
    assert_eq!(table.encode(), bytes);
}

#[test]
fn memory_map_decode_rejects_a_short_buffer() {
    let bytes = sample_memory_map_bytes();
    assert_eq!(
        MemoryMapTable::decode(&bytes, 3),
        Err(DecodeError::BufferTooShort { needed: 104, available: 80 })
    );
    assert_eq!(
        MemoryMapTable::decode(&bytes[..79], 2),
        Err(DecodeError::BufferTooShort { needed: 80, available: 79 })
    );
    assert_eq!(
        MemoryMapTable::decode(&bytes, usize::MAX),
        Err(DecodeError::BufferTooShort { needed: usize::MAX, available: 80 })
    );
}

#[test]
fn memory_map_decode_reports_the_first_unknown_tag() {
    let mut bytes = sample_memory_map_bytes();
    bytes[32 + 24 + 17] = 5;
    assert_eq!(
        MemoryMapTable::decode(&bytes, 2),
        Err(DecodeError::UnknownTag { field: TagField::Reliability, offset: 73, value: 5 })
    );
    bytes[32 + 18] = 9;
    assert_eq!(
        MemoryMapTable::decode(&bytes, 2),
        Err(DecodeError::UnknownTag { field: TagField::HotPlug, offset: 50, value: 9 })
    );
    assert_eq!(
        MemoryMapTable::decode(&bytes, 1),
        Err(DecodeError::UnknownTag { field: TagField::HotPlug, offset: 50, value: 9 })
    );
}

#[test]
fn isa_call_table_decodes_and_encodes() {
    let mut bytes = sample_header_bytes();
    bytes.extend_from_slice(&[2, 7, 0xEE, 0xDD]);
    let table = IsaCallTable {
        header: IsaCallHeader(sample_header()),
        buffer_type: IsaCallBufferType::Uvb,
        buffer_index: 7,
        reserved: [0xEE, 0xDD],
    };
    assert_eq!(IsaCallTable::decode(&bytes), Ok(table.clone()));
    assert_eq!(table.encode(), bytes);
    assert_eq!(IsaCallBufferType::Uvb.tag(), 2);
    assert_eq!(IsaCallBufferType::from_tag(2), Some(IsaCallBufferType::Uvb));
    assert_eq!(IsaCallBufferType::from_tag(1), None);
}

#[test]
fn isa_call_table_decode_rejects_what_it_cannot_hold() {
    let mut bytes = sample_header_bytes();
    bytes.extend_from_slice(&[0, 7, 0, 0]);
    assert_eq!(
        IsaCallTable::decode(&bytes),
        Err(DecodeError::UnknownTag { field: TagField::BufferType, offset: 32, value: 0 })
    );
    assert_eq!(
        IsaCallTable::decode(&bytes[..35]),
        Err(DecodeError::BufferTooShort { needed: 36, available: 35 })
    );
}

#[test]
fn notify_info_table_decodes_field_by_field() {
    let mut bytes = patterned(624);
    bytes[..32].copy_from_slice(&sample_header_bytes());
    bytes[32..40].copy_from_slice(&0x1000_0000_0000_0100u64.to_le_bytes());
    bytes[40..48].copy_from_slice(&0x1000_0000_0000_0200u64.to_le_bytes());
    bytes[48..56].copy_from_slice(&0x1000_0000_0000_0300u64.to_le_bytes());
    bytes[56..64].copy_from_slice(&0x1000_0000_0000_0400u64.to_le_bytes());
    bytes[64..68].copy_from_slice(&0x4000_1002u32.to_le_bytes());
    bytes[68..72].copy_from_slice(&16u32.to_le_bytes());
    bytes[584] = 3;
    bytes[592..596].copy_from_slice(&77u32.to_le_bytes());
    bytes[600..608].copy_from_slice(&0xAAAAu64.to_le_bytes());
    bytes[608..616].copy_from_slice(&0xBBBBu64.to_le_bytes());
    bytes[616..624].copy_from_slice(&0xCCCCu64.to_le_bytes());
    let table = NotifyInfoTable::decode(&bytes).unwrap();
    assert_eq!(table.header, NotifyInfoOdHeader(sample_header()));
    assert_eq!(table.ring_buffer.head, 0x1000_0000_0000_0100);
    assert_eq!(table.ring_buffer.tail, 0x1000_0000_0000_0200);
    assert_eq!(table.ring_buffer.read_pos, 0x1000_0000_0000_0300);
    assert_eq!(table.ring_buffer.write_pos, 0x1000_0000_0000_0400);
    assert_eq!(table.ring_buffer.data.notify_id.raw(), 0x4000_1002);
    let notify = table.ring_buffer.data.notify_id.notify_id().unwrap();
    assert_eq!(notify.module_id().raw(), 1);
    assert_eq!(notify.information_id().raw(), 2);
    assert_eq!(table.ring_buffer.data.length, 16);
    assert_eq!(&table.ring_buffer.data.raw_data[..], &bytes[72..584]);
    assert_eq!(table.uvb_index, 3);
    assert_eq!(&table.reserved[..], &bytes[585..592]);
    assert_eq!(table.irq.number, 77);
    assert_eq!(&table.irq.reserved[..], &bytes[596..600]);
    assert_eq!(table.irq.clear, NotifyInfoIrqClear { addr: 0xAAAA, mask: 0xBBBB, value: 0xCCCC });
    assert_eq!(table.encode(), bytes);
}

#[test]
fn notify_info_table_encodes_a_built_value() {
    let table = NotifyInfoTable {
        header: NotifyInfoOdHeader(sample_header()),
        ring_buffer: NotifyInfoRingBuffer {
            head: 1,
            tail: 2,
            read_pos: 3,
            write_pos: 4,
            data: NotifyInfoRingBufferData {
                notify_id: MessageId::from_raw(0x4000_0000),
                length: 0,
                raw_data: [0x5A; 512],
            },
        },
        uvb_index: 9,
        reserved: [0; 7],
        irq: NotifyInfoIrq {
            number: 5,
            reserved: [0; 4],
            clear: NotifyInfoIrqClear { addr: 6, mask: 7, value: 8 },
        },
    };
    let bytes = table.encode();
    assert_eq!(bytes.len(), 624);
    assert_eq!(bytes[32], 1);
    assert_eq!(bytes[67], 0x40);
    assert_eq!(bytes[72], 0x5A);
    assert_eq!(bytes[583], 0x5A);
    assert_eq!(bytes[584], 9);
    assert_eq!(bytes[592], 5);
    assert_eq!(bytes[616], 8);
    assert_eq!(NotifyInfoTable::decode(&bytes), Ok(table));
}

#[test]
fn notify_info_table_decode_rejects_a_short_buffer() {
    let bytes = patterned(623);
    assert_eq!(
        NotifyInfoTable::decode(&bytes),
        Err(DecodeError::BufferTooShort { needed: 624, available: 623 })
    );
}

fn call_id_service_bytes() -> Vec<u8> {
    let mut bytes = patterned(1_054_760);
    for group in 0..512 {
        let at = 32 + 2060 * group;
        bytes[at + 4] = (group % 5) as u8;
    }
    bytes[1_054_752] = 2;
    bytes
}

#[test]
fn call_id_service_table_round_trips() {
    let mut bytes = call_id_service_bytes();
    let first = 32;
    bytes[first..first + 4].copy_from_slice(&0x3000_0005u32.to_le_bytes());
    bytes[first + 5] = 0x11;
    bytes[first + 8..first + 12].copy_from_slice(&0xC000_1001u32.to_le_bytes());
    bytes[first + 12..first + 16].copy_from_slice(&0u32.to_le_bytes());
    bytes[first + 2056..first + 2060].copy_from_slice(&0u32.to_le_bytes());
    let last = 32 + 2060 * 511;
    bytes[last + 8 + 4 * 511..last + 2056].copy_from_slice(&0xC00F_F0FFu32.to_le_bytes());
    bytes[1_054_756..].copy_from_slice(&0x2000_0001u32.to_le_bytes());
    let table = CallIdServiceTable::decode(&bytes).unwrap();
    assert_eq!(&table.header().0.name[..], &bytes[..16]);
    let group = table.group(0).unwrap();
    assert_eq!(group.owner, UserId::new(0x3000_0005));
    assert_eq!(group.usage, CallIdServiceGroupUsageType::Unsupported);
    assert_eq!(group.index, 0x11);
    assert_eq!(group.call_id[0].raw(), 0xC000_1001);
    assert_eq!(group.call_id_at(0).unwrap().function_id().raw(), 1);
    assert_eq!(group.call_id[1].raw(), 0);
    assert!(group.call_id_at(1).is_none());
    assert!(group.call_id_at(512).is_none());
    assert_eq!(group.forwarder, None);
    assert_eq!(table.group(3).unwrap().usage, CallIdServiceGroupUsageType::Reserved);
    let group = table.group(511).unwrap();
    assert_eq!(group.usage, CallIdServiceGroupUsageType::IsaCall);
    assert_eq!(group.call_id[511].raw(), 0xC00F_F0FF);
    assert!(table.group(512).is_none());
    assert_eq!(table.ub().usage, CallIdServiceGroupUsageType::Uvb);
    assert_eq!(table.ub().forwarder, UserId::new(0x2000_0001));
    assert_eq!(table.encode(), bytes);
    assert_eq!(table.clone(), table);
}

#[test]
fn call_id_service_table_decode_rejects_what_it_cannot_hold() {
    let mut bytes = call_id_service_bytes();
    assert_eq!(
        CallIdServiceTable::decode(&bytes[..1_054_759]),
        Err(DecodeError::BufferTooShort { needed: 1_054_760, available: 1_054_759 })
    );
    bytes[1_054_752] = 5;
    assert_eq!(
        CallIdServiceTable::decode(&bytes),
        Err(DecodeError::UnknownTag { field: TagField::UsageType, offset: 1_054_752, value: 5 })
    );
    bytes[32 + 2060 * 300 + 4] = 0xFF;
    assert_eq!(
        CallIdServiceTable::decode(&bytes),
        Err(DecodeError::UnknownTag { field: TagField::UsageType, offset: 618_036, value: 0xFF })
    );
    bytes[32 + 2060 * 2 + 4] = 6;
    assert_eq!(
        CallIdServiceTable::decode(&bytes),
        Err(DecodeError::UnknownTag { field: TagField::UsageType, offset: 4156, value: 6 })
    );
}

#[test]
fn call_id_service_table_is_built_of_512_groups() {
    let group = CallIdServiceOdGroup {
        owner: UserId::new(0x0100_0001),
        usage: CallIdServiceGroupUsageType::Undefined,
        index: 1,
        reserved: [0; 2],
        call_id: [MessageId::from_raw(0xC000_0000); 512],
        forwarder: UserId::new(0x0B00_0002),
    };
    let ub = CallIdServiceUb {
        usage: CallIdServiceGroupUsageType::IsaCall,
        index: 2,
        reserved: [3, 4],
        forwarder: None,
    };
    let header = CallIdServiceOdHeader(sample_header());
    assert!(CallIdServiceTable::new(header.clone(), vec![group.clone(); 511], ub.clone()).is_none());
    assert!(CallIdServiceTable::new(header.clone(), vec![group.clone(); 513], ub.clone()).is_none());
    let table = CallIdServiceTable::new(header, vec![group; 512], ub).unwrap();
    let bytes = table.encode();
    assert_eq!(bytes.len(), 1_054_760);
    assert_eq!(&bytes[32..36], &[0x01, 0x00, 0x00, 0x01]);
    assert_eq!(bytes[36], 4);
    assert_eq!(&bytes[40..44], &[0x00, 0x00, 0x00, 0xC0]);
    assert_eq!(&bytes[32 + 2056..32 + 2060], &[0x02, 0x00, 0x00, 0x0B]);
    assert_eq!(&bytes[1_054_752..], &[1, 2, 3, 4, 0, 0, 0, 0]);
    assert_eq!(CallIdServiceTable::decode(&bytes), Ok(table));
}

#[test]
fn usage_tags_are_the_wire_values() {
    let kinds = [
        (CallIdServiceGroupUsageType::Unsupported, 0u8),
        (CallIdServiceGroupUsageType::IsaCall, 1),
        (CallIdServiceGroupUsageType::Uvb, 2),
        (CallIdServiceGroupUsageType::Reserved, 3),
        (CallIdServiceGroupUsageType::Undefined, 4),
    ];
    for (kind, tag) in kinds {
        assert_eq!(kind.tag(), tag);
        assert_eq!(CallIdServiceGroupUsageType::from_tag(tag), Some(kind));
    }
    assert_eq!(CallIdServiceGroupUsageType::from_tag(5), None);
}

#[test]
fn uvb_table_round_trips() {
    let mut bytes = patterned(8_392_736);
    let window = 32 + 16392 * 2 + 8 + 32 * 5;
    bytes[window..window + 8].copy_from_slice(&0x1111u64.to_le_bytes());
    bytes[window + 8..window + 16].copy_from_slice(&0x2222u64.to_le_bytes());
    bytes[window + 16..window + 24].copy_from_slice(&0x3333u64.to_le_bytes());
    bytes[window + 24..window + 28].copy_from_slice(&0x4444u32.to_le_bytes());
    bytes[32 + 16392 * 2..32 + 16392 * 2 + 4].copy_from_slice(&250u32.to_le_bytes());
    let table = UvbTable::decode(&bytes).unwrap();
    assert_eq!(&table.header().0.name[..], &bytes[..16]);
    let member = table.member(2).unwrap();
    assert_eq!(member.delay, 250);
    assert_eq!(member.wd[5].obtain, 0x1111);
    assert_eq!(member.wd[5].address, 0x2222);
    assert_eq!(member.wd[5].buffer, 0x3333);
    assert_eq!(member.wd[5].size, 0x4444);
    assert_eq!(&member.wd[5].reserved[..], &bytes[window + 28..window + 32]);
    assert!(table.member(511).is_some());
    assert!(table.member(512).is_none());
    assert_eq!(table.encode(), bytes);
}

#[test]
fn uvb_table_decode_rejects_a_short_buffer() {
    let bytes = vec![0u8; 8_392_735];
    assert_eq!(
        UvbTable::decode(&bytes),
        Err(DecodeError::BufferTooShort { needed: 8_392_736, available: 8_392_735 })
    );
}

#[test]
fn uvb_table_is_built_of_512_members() {
    let window = UvbWindowDescript { obtain: 1, address: 2, buffer: 3, size: 4, reserved: [5; 4] };
    let member = UvbOdMember { delay: 6, reserved: [7; 4], wd: [window; 512] };
    let header = UvbOdHeader(sample_header());
    assert!(UvbTable::new(header.clone(), vec![member.clone(); 3]).is_none());
    let table = UvbTable::new(header, vec![member; 512]).unwrap();
    let bytes = table.encode();
    assert_eq!(bytes.len(), 8_392_736);
    assert_eq!(&bytes[32..40], &[6, 0, 0, 0, 7, 7, 7, 7]);
    assert_eq!(&bytes[40..48], &[1, 0, 0, 0, 0, 0, 0, 0]);
    assert_eq!(&bytes[8_392_736 - 8..], &[4, 0, 0, 0, 5, 5, 5, 5]);
    assert_eq!(UvbTable::decode(&bytes), Ok(table.clone()));
    assert_eq!(table.clone(), table);
}
