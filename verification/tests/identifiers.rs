use ubios::{
    CallId, FunctionIDType, FunctionId, InformationId, InformationIdMessageType, MessageFlag,
    MessageId, ModuleId, NotifyId, UserId, UserType,
};

#[test]
fn call_word_decodes_to_its_parts() {
    let id = MessageId::from_raw(0xC000_1001);
    assert_eq!(id.flag(), MessageFlag::CallId);
    assert_eq!(id.module_id().raw(), 0x0001);
    assert_eq!(id.function_or_information_id(), 0x001);
    assert!(id.is_call_id());
    assert!(!id.is_notify_id());
    let call = id.call_id().unwrap();
    assert_eq!(call.message_id(), id);
    assert_eq!(call.module_id().raw(), 0x0001);
    assert_eq!(call.function_id().raw(), 0x001);
    assert!(id.notify_id().is_none());
}

#[test]
fn trusted_os_user_word() {
    let id = UserId::new(0x3000_0005).unwrap();
    assert_eq!(id.user_type(), UserType::TrustedOs);
    assert_eq!(id.index(), 5);
    assert_eq!(id.raw(), 0x3000_0005);
}

#[test]
fn every_top_bit_pair_has_its_flag() {
    assert_eq!(MessageId::from_raw(0x0000_0000).flag(), MessageFlag::Response);
    assert_eq!(MessageId::from_raw(0x3FFF_FFFF).flag(), MessageFlag::Response);
    assert_eq!(MessageId::from_raw(0x4000_0000).flag(), MessageFlag::NotifyId);
    assert_eq!(MessageId::from_raw(0x7FFF_FFFF).flag(), MessageFlag::NotifyId);
    assert_eq!(MessageId::from_raw(0x8000_0000).flag(), MessageFlag::Ack);
    assert_eq!(MessageId::from_raw(0xBFFF_FFFF).flag(), MessageFlag::Ack);
    assert_eq!(MessageId::from_raw(0xC000_0000).flag(), MessageFlag::CallId);
    assert_eq!(MessageId::from_raw(0xFFFF_FFFF).flag(), MessageFlag::CallId);
}

#[test]
fn flag_bits_are_the_wire_patterns() {
    assert_eq!(MessageFlag::CallId.bits(), 0b11);
    assert_eq!(MessageFlag::Ack.bits(), 0b10);
    assert_eq!(MessageFlag::NotifyId.bits(), 0b01);
    assert_eq!(MessageFlag::Response.bits(), 0b00);
}

#[test]
fn notify_word_narrows_to_notify_only() {
    let id = MessageId::from_raw(0x4ABC_D801);
    assert_eq!(id.flag(), MessageFlag::NotifyId);
    assert!(id.call_id().is_none());
    assert!(!id.is_call_id());
    assert!(id.is_notify_id());
    let notify = id.notify_id().unwrap();
    assert_eq!(notify.message_id().raw(), 0x4ABC_D801);
    assert_eq!(notify.module_id().raw(), 0xABCD);
    assert_eq!(notify.information_id().raw(), 0x801);
    assert_eq!(
        notify.information_id().message_type(),
        InformationIdMessageType::OemSpecificMessage
    );
}

#[test]
fn ack_and_response_narrow_to_neither() {
    for word in [0x8000_0000u32, 0xBFFF_FFFF, 0x0000_0000, 0x3FFF_FFFF] {
        let id = MessageId::from_raw(word);
        assert!(id.call_id().is_none());
        assert!(id.notify_id().is_none());
    }
}

#[test]
fn reserved_bits_are_not_inspected() {
    let plain = MessageId::from_raw(0xC123_4567);
    let with_reserved = MessageId::from_raw(0xF123_4567);
    assert_eq!(plain.flag(), with_reserved.flag());
    assert_eq!(plain.module_id(), with_reserved.module_id());
    assert_eq!(
        plain.function_or_information_id(),
        with_reserved.function_or_information_id()
    );
    assert_eq!(plain.module_id().raw(), 0x1234);
    assert_eq!(plain.function_or_information_id(), 0x567);
}

#[test]
fn packing_then_unpacking_gives_the_parts_back() {
    let flags = [
        MessageFlag::CallId,
        MessageFlag::Ack,
        MessageFlag::NotifyId,
        MessageFlag::Response,
    ];
    for flag in flags {
        for module in [0x0000u16, 0x0001, 0x3FFF, 0x4000, 0xBFFF, 0xC000, 0xFFFF] {
            for low in [0x000u16, 0x001, 0x0FF, 0x100, 0x7FF, 0x800, 0xFFF] {
                let id = MessageId::from_parts(flag, ModuleId::from_raw(module), low).unwrap();
                assert_eq!(id.flag(), flag);
                assert_eq!(id.module_id().raw(), module);
                assert_eq!(id.function_or_information_id(), low);
            }
        }
    }
}

#[test]
fn packing_gives_the_exact_word() {
    let id = MessageId::from_parts(MessageFlag::CallId, ModuleId::from_raw(0x0001), 0x001);
    assert_eq!(id.unwrap().raw(), 0xC000_1001);
    let id = MessageId::from_parts(MessageFlag::Ack, ModuleId::from_raw(0xFFFF), 0xFFF);
    assert_eq!(id.unwrap().raw(), 0x8FFF_FFFF);
    let id = MessageId::from_parts(MessageFlag::Response, ModuleId::from_raw(0), 0);
    assert_eq!(id.unwrap().raw(), 0);
}

#[test]
fn packing_rejects_a_wide_low_part() {
    let module = ModuleId::from_raw(1);
    assert!(MessageId::from_parts(MessageFlag::CallId, module, 0x1000).is_none());
    assert!(MessageId::from_parts(MessageFlag::CallId, module, 0xFFFF).is_none());
    assert!(MessageId::from_parts(MessageFlag::CallId, module, 0x0FFF).is_some());
}

#[test]
fn call_and_notify_identifiers_are_built_from_parts() {
    let module = ModuleId::from_raw(0x0042);
    let call = CallId::new(module, FunctionId::new(0x123).unwrap());
    assert_eq!(call.message_id().raw(), 0xC004_2123);
    assert_eq!(call.message_id().call_id(), Some(call));
    let notify = NotifyId::new(module, InformationId::new(0x7FF).unwrap());
    assert_eq!(notify.message_id().raw(), 0x4004_27FF);
    assert_eq!(notify.message_id().notify_id(), Some(notify));
}

#[test]
fn module_classes_follow_the_top_two_bits() {
    let cases = [
        (0x0000u16, true, false),
        (0x3FFF, true, false),
        (0x4000, false, false),
        (0x7FFF, false, false),
        (0x8000, false, false),
        (0xBFFF, false, false),
        (0xC000, false, true),
        (0xFFFF, false, true),
    ];
    for (value, standard, oem) in cases {
        let module = ModuleId::from_raw(value);
        assert_eq!(module.is_standard(), standard);
        assert_eq!(module.is_oem_specific(), oem);
    }
}

#[test]
fn no_module_is_in_both_classes() {
    for value in 0..=0xFFFFu16 {
        let module = ModuleId::from_raw(value);
        assert!(!(module.is_standard() && module.is_oem_specific()));
    }
}

#[test]
fn function_classes_have_the_documented_bounds() {
    let cases = [
        (0x000u16, FunctionIDType::SystemFunction),
        (0x0FF, FunctionIDType::SystemFunction),
        (0x100, FunctionIDType::BatteryFunction),
        (0x1FF, FunctionIDType::BatteryFunction),
        (0x200, FunctionIDType::RASFunction),
        (0x2FF, FunctionIDType::RASFunction),
        (0x300, FunctionIDType::SecurityFunction),
        (0x3FF, FunctionIDType::SecurityFunction),
        (0x400, FunctionIDType::Reserved),
        (0x7FF, FunctionIDType::Reserved),
        (0x800, FunctionIDType::OEMFunction),
        (0xFFF, FunctionIDType::OEMFunction),
    ];
    for (value, kind) in cases {
        assert_eq!(FunctionId::new(value).unwrap().function_type(), kind);
    }
}

#[test]
fn function_identifier_is_twelve_bits() {
    assert!(FunctionId::new(0x1000).is_none());
    assert!(FunctionId::new(0xFFFF).is_none());
    assert_eq!(FunctionId::new(0xFFF).unwrap().raw(), 0xFFF);
}

#[test]
fn information_classes_have_the_documented_bounds() {
    let cases = [
        (0x000u16, InformationIdMessageType::StandardMessage),
        (0x7FF, InformationIdMessageType::StandardMessage),
        (0x800, InformationIdMessageType::OemSpecificMessage),
        (0xFFF, InformationIdMessageType::OemSpecificMessage),
    ];
    for (value, kind) in cases {
        assert_eq!(InformationId::new(value).unwrap().message_type(), kind);
    }
}

#[test]
fn information_identifier_is_twelve_bits() {
    assert!(InformationId::new(0x1000).is_none());
    assert_eq!(InformationId::new(0x800).unwrap().raw(), 0x800);
}

#[test]
fn zero_is_no_user_identifier() {
    assert!(UserId::new(0).is_none());
    assert!(UserId::new(1).is_some());
}

#[test]
fn every_named_type_byte_has_its_user_type() {
    let cases = [
        (0xFFu8, UserType::Unspecified),
        (0x30, UserType::TrustedOs),
        (0x20, UserType::RichOs),
        (0x11, UserType::EntityThisUbpu),
        (0x10, UserType::EntityOtherUbpu),
        (0x0B, UserType::Bmc),
        (0x01, UserType::Bios),
    ];
    for (byte, kind) in cases {
        assert_eq!(UserType::from_byte(byte), kind);
        let word = ((byte as u32) << 24) | 0x00AB_CDEF;
        let id = UserId::new(word).unwrap();
        assert_eq!(id.user_type(), kind);
        assert_eq!(id.index(), 0x00AB_CDEF);
    }
}

#[test]
fn every_other_type_byte_is_reserved() {
    let named = [0xFFu8, 0x30, 0x20, 0x11, 0x10, 0x0B, 0x01];
    for byte in 0..=0xFFu8 {
        let kind = UserType::from_byte(byte);
        assert_eq!(kind == UserType::Reserved, !named.contains(&byte));
        let word = ((byte as u32) << 24) | 1;
        assert_eq!(UserId::new(word).unwrap().user_type(), kind);
    }
}

#[test]
fn user_index_is_the_low_twenty_four_bits() {
    assert_eq!(UserId::new(0x00FF_FFFF).unwrap().index(), 0x00FF_FFFF);
    assert_eq!(UserId::new(0xFF00_0000).unwrap().index(), 0);
    assert_eq!(UserId::new(0x2012_3456).unwrap().index(), 0x12_3456);
    assert_eq!(UserId::new(0x0000_0001).unwrap().user_type(), UserType::Reserved);
}
