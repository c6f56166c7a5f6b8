//! UVB message identifiers.
//!
//! A message identifier is a 32-bit word. Bits 31..30 hold the flag, bits
//! 27..12 the module identifier and bits 11..0 the function or information
//! identifier. Bits 29..28 are reserved and never inspected.

use vstd::prelude::*;

verus! {

/// Flags in the UVB message identifier.
#[derive(Clone, Copy, Debug, PartialEq, Eq, Hash, Structural)]
pub enum MessageFlag {
    /// UBIOS Call ID (`0b11`).
    CallId,
    /// Acknowledge of UBIOS Notify ID Information (`0b10`).
    Ack,
    /// UBIOS Notify ID (`0b01`).
    NotifyId,
    /// Response of UBIOS Call ID Service (`0b00`).
    Response,
}

/// UBIOS Function ID Types.
#[derive(Clone, Copy, Debug, PartialEq, Eq, Hash, Structural)]
pub enum FunctionIDType {
    /// System Function: 0x000 - 0x0FF.
    SystemFunction,
    /// Battery Function: 0x100 - 0x1FF.
    BatteryFunction,
    /// RAS Function: 0x200 - 0x2FF.
    RASFunction,
    /// Security Function: 0x300 - 0x3FF.
    SecurityFunction,
    /// Reserved: 0x400 - 0x7FF.
    Reserved,
    /// OEM Function: 0x800 - 0xFFF.
    OEMFunction,
}

/// UBIOS Information Message Types.
#[derive(Clone, Copy, Debug, PartialEq, Eq, Hash, Structural)]
pub enum InformationIdMessageType {
    /// Standard Message Type: 0x000 - 0x7FF.
    StandardMessage,
    /// OEM-specific Message Type: 0x800 - 0xFFF.
    OemSpecificMessage,
}

/// The two-bit pattern that stands for `flag`.
pub open spec fn flag_bits(flag: MessageFlag) -> u32 {
    match flag {
        MessageFlag::CallId => 3,
        MessageFlag::Ack => 2,
        MessageFlag::NotifyId => 1,
        MessageFlag::Response => 0,
    }
}

/// The flag held in bits 31..30 of `word`.
pub open spec fn flag_of(word: u32) -> MessageFlag {
    let bits = word >> 30;
    if bits == 3 {
        MessageFlag::CallId
    } else if bits == 2 {
        MessageFlag::Ack
    } else if bits == 1 {
        MessageFlag::NotifyId
    } else {
        MessageFlag::Response
    }
}

/// The module identifier held in bits 27..12 of `word`.
pub open spec fn module_of(word: u32) -> u16 {
    ((word >> 12) & 0xffff) as u16
}

/// The function or information identifier held in bits 11..0 of `word`.
pub open spec fn low12_of(word: u32) -> u16 {
    (word & 0xfff) as u16
}

/// The word that carries `flag`, `module` and `low12`, with the reserved
/// bits clear.
pub open spec fn pack(flag: MessageFlag, module: u16, low12: u16) -> u32 {
    (flag_bits(flag) << 30) | ((module as u32) << 12) | (low12 as u32)
}

/// `Some(word)` when `word` carries the Call ID flag.
pub open spec fn call_word(word: u32) -> Option<u32> {
    if flag_of(word) == MessageFlag::CallId {
        Some(word)
    } else {
        None
    }
}

/// `Some(word)` when `word` carries the Notify ID flag.
pub open spec fn notify_word(word: u32) -> Option<u32> {
    if flag_of(word) == MessageFlag::NotifyId {
        Some(word)
    } else {
        None
    }
}

/// Whether the top two bits of a module identifier are `00`.
pub open spec fn is_standard_module(module: u16) -> bool {
    module & 0xC000 == 0x0000
}

/// Whether the top two bits of a module identifier are `11`.
pub open spec fn is_oem_specific_module(module: u16) -> bool {
    module & 0xC000 == 0xC000
}

/// The range class of a function identifier.
pub open spec fn function_type_of(function: u16) -> FunctionIDType {
    if function <= 0x0FF {
        FunctionIDType::SystemFunction
    } else if function <= 0x1FF {
        FunctionIDType::BatteryFunction
    } else if function <= 0x2FF {
        FunctionIDType::RASFunction
    } else if function <= 0x3FF {
        FunctionIDType::SecurityFunction
    } else if function <= 0x7FF {
        FunctionIDType::Reserved
    } else {
        FunctionIDType::OEMFunction
    }
}

/// The range class of an information identifier.
pub open spec fn message_type_of(information: u16) -> InformationIdMessageType {
    if information <= 0x7FF {
        InformationIdMessageType::StandardMessage
    } else {
        InformationIdMessageType::OemSpecificMessage
    }
}

impl MessageFlag {
    /// The two-bit pattern of this flag.
    pub fn bits(self) -> (bits: u8)
        ensures
            bits == flag_bits(self),
    {
        match self {
            MessageFlag::CallId => 3,
            MessageFlag::Ack => 2,
            MessageFlag::NotifyId => 1,
            MessageFlag::Response => 0,
        }
    }
}

/// UVB message identifier.
#[derive(Clone, Copy, Debug, PartialEq, Eq, Hash, Structural)]
pub struct MessageId(u32);

impl View for MessageId {
    type V = u32;

    closed spec fn view(&self) -> u32 {
        self.0
    }
}

impl MessageId {
    /// Views a raw word as a message identifier. Every 32-bit pattern is one.
    pub fn from_raw(word: u32) -> (id: MessageId)
        ensures
            id@ == word,
    {
        MessageId(word)
    }

    /// The raw word of this message identifier.
    pub fn raw(self) -> (word: u32)
        ensures
            word == self@,
    {
        self.0
    }

    /// Packs a flag, a module identifier and a 12-bit function or information
    /// identifier into a message identifier. Returns `None` when `low12` does
    /// not fit in 12 bits.
    pub fn from_parts(flag: MessageFlag, module: ModuleId, low12: u16) -> (id: Option<MessageId>)
        ensures
            match id {
                Some(m) => low12 <= 0xFFF && m@ == pack(flag, module@, low12),
                None => low12 > 0xFFF,
            },
    {
        if low12 > 0xFFF {
            return None;
        }
        let top: u32 = match flag {
            MessageFlag::CallId => 3,
            MessageFlag::Ack => 2,
            MessageFlag::NotifyId => 1,
            MessageFlag::Response => 0,
        };
        Some(MessageId((top << 30) | ((module.0 as u32) << 12) | (low12 as u32)))
    }

    /// Get the flag of this message ID.
    pub fn flag(self) -> (flag: MessageFlag)
        ensures
            flag == flag_of(self@),
    {
        let bits: u32 = self.0 >> 30;
        if bits == 3 {
            MessageFlag::CallId
        } else if bits == 2 {
            MessageFlag::Ack
        } else if bits == 1 {
            MessageFlag::NotifyId
        } else {
            MessageFlag::Response
        }
    }

    /// Get the module ID of this message ID.
    pub fn module_id(self) -> (module: ModuleId)
        ensures
            module@ == module_of(self@),
    {
        let word: u32 = self.0;
        assert((word >> 12) & 0xffff <= 0xffff) by (bit_vector);
        ModuleId(((word >> 12) & 0xffff) as u16)
    }

    /// Get the raw function or information identifier of this message ID.
    /// Which of the two it is depends on the flag.
    pub fn function_or_information_id(self) -> (low12: u16)
        ensures
            low12 == low12_of(self@),
            low12 <= 0xFFF,
    {
        let word: u32 = self.0;
        assert(word & 0xfff <= 0xfff) by (bit_vector);
        (word & 0xfff) as u16
    }

    /// Converts from `MessageId` to `Option<CallId>`.
    pub fn call_id(self) -> (call: Option<CallId>)
        ensures
            match call {
                Some(c) => call_word(self@) == Some(c@),
                None => call_word(self@) is None,
            },
    {
        match self.flag() {
            MessageFlag::CallId => Some(CallId(self)),
            _ => None,
        }
    }

    /// Returns `true` if the message ID is a `CallId`.
    pub fn is_call_id(self) -> (yes: bool)
        ensures
            yes == (flag_of(self@) == MessageFlag::CallId),
    {
        match self.flag() {
            MessageFlag::CallId => true,
            _ => false,
        }
    }

    /// Converts from `MessageId` to `Option<NotifyId>`.
    pub fn notify_id(self) -> (notify: Option<NotifyId>)
        ensures
            match notify {
                Some(n) => notify_word(self@) == Some(n@),
                None => notify_word(self@) is None,
            },
    {
        match self.flag() {
            MessageFlag::NotifyId => Some(NotifyId(self)),
            _ => None,
        }
    }

    /// Returns `true` if the message ID is a `NotifyId`.
    pub fn is_notify_id(self) -> (yes: bool)
        ensures
            yes == (flag_of(self@) == MessageFlag::NotifyId),
    {
        match self.flag() {
            MessageFlag::NotifyId => true,
            _ => false,
        }
    }
}

/// UBIOS module identifier.
#[derive(Clone, Copy, Debug, PartialEq, Eq, Hash, Structural)]
pub struct ModuleId(u16);

impl View for ModuleId {
    type V = u16;

    closed spec fn view(&self) -> u16 {
        self.0
    }
}

impl ModuleId {
    /// Views a raw 16-bit value as a module identifier.
    pub fn from_raw(value: u16) -> (module: ModuleId)
        ensures
            module@ == value,
    {
        ModuleId(value)
    }

    /// The raw 16-bit value of this module identifier.
    pub fn raw(self) -> (value: u16)
        ensures
            value == self@,
    {
        self.0
    }

    /// Returns `true` if this is a standard module ID (0x0000 - 0x3FFF).
    pub fn is_standard(&self) -> (yes: bool)
        ensures
            yes == is_standard_module(self@),
            yes == (self@ <= 0x3FFF),
    {
        let value: u16 = self.0;
        assert((value & 0xC000 == 0x0000) == (value <= 0x3FFF)) by (bit_vector);
        (value & 0xC000) == 0x0000
    }

    /// Returns `true` if this is an OEM-specific module ID (0xC000 - 0xFFFF).
    pub fn is_oem_specific(&self) -> (yes: bool)
        ensures
            yes == is_oem_specific_module(self@),
            yes == (self@ >= 0xC000),
    {
        let value: u16 = self.0;
        assert((value & 0xC000 == 0xC000) == (value >= 0xC000)) by (bit_vector);
        (value & 0xC000) == 0xC000
    }
}

/// UBIOS function identifier: a 12-bit value.
#[derive(Clone, Copy, Debug, PartialEq, Eq, Hash, Structural)]
pub struct FunctionId(u16);

impl View for FunctionId {
    type V = u16;

    closed spec fn view(&self) -> u16 {
        self.0
    }
}

impl FunctionId {
    #[verifier::type_invariant]
    spec fn fits(self) -> bool {
        self.0 <= 0xFFF
    }

    /// Makes a function identifier of a 12-bit value. Returns `None` when
    /// `value` exceeds `0xFFF`.
    pub fn new(value: u16) -> (function: Option<FunctionId>)
        ensures
            match function {
                Some(f) => value <= 0xFFF && f@ == value,
                None => value > 0xFFF,
            },
    {
        if value <= 0xFFF {
            Some(FunctionId(value))
        } else {
            None
        }
    }

    /// The 12-bit value of this function identifier.
    pub fn raw(self) -> (value: u16)
        ensures
            value == self@,
            value <= 0xFFF,
    {
        proof {
            use_type_invariant(&self);
        }
        self.0
    }

    /// Returns the function ID type.
    pub fn function_type(self) -> (kind: FunctionIDType)
        ensures
            kind == function_type_of(self@),
            self@ <= 0xFFF,
    {
        proof {
            use_type_invariant(&self);
        }
        let value: u16 = self.0;
        if value <= 0x0FF {
            FunctionIDType::SystemFunction
        } else if value <= 0x1FF {
            FunctionIDType::BatteryFunction
        } else if value <= 0x2FF {
            FunctionIDType::RASFunction
        } else if value <= 0x3FF {
            FunctionIDType::SecurityFunction
        } else if value <= 0x7FF {
            FunctionIDType::Reserved
        } else {
            FunctionIDType::OEMFunction
        }
    }
}

/// UBIOS information identifier: a 12-bit value.
#[derive(Clone, Copy, Debug, PartialEq, Eq, Hash, Structural)]
pub struct InformationId(u16);

impl View for InformationId {
    type V = u16;

    closed spec fn view(&self) -> u16 {
        self.0
    }
}

impl InformationId {
    #[verifier::type_invariant]
    spec fn fits(self) -> bool {
        self.0 <= 0xFFF
    }

    /// Makes an information identifier of a 12-bit value. Returns `None` when
    /// `value` exceeds `0xFFF`.
    pub fn new(value: u16) -> (information: Option<InformationId>)
        ensures
            match information {
                Some(i) => value <= 0xFFF && i@ == value,
                None => value > 0xFFF,
            },
    {
        if value <= 0xFFF {
            Some(InformationId(value))
        } else {
            None
        }
    }

    /// The 12-bit value of this information identifier.
    pub fn raw(self) -> (value: u16)
        ensures
            value == self@,
            value <= 0xFFF,
    {
        proof {
            use_type_invariant(&self);
        }
        self.0
    }

    /// Returns the message type of the information ID.
    pub fn message_type(self) -> (kind: InformationIdMessageType)
        ensures
            kind == message_type_of(self@),
            self@ <= 0xFFF,
    {
        proof {
            use_type_invariant(&self);
        }
        if self.0 <= 0x7FF {
            InformationIdMessageType::StandardMessage
        } else {
            InformationIdMessageType::OemSpecificMessage
        }
    }
}

/// UBIOS call identifier: a message identifier whose flag is
/// [`MessageFlag::CallId`].
#[derive(Clone, Copy, Debug, PartialEq, Eq, Hash, Structural)]
pub struct CallId(MessageId);

impl View for CallId {
    type V = u32;

    closed spec fn view(&self) -> u32 {
        self.0@
    }
}

impl CallId {
    #[verifier::type_invariant]
    spec fn flagged(self) -> bool {
        flag_of(self.0@) == MessageFlag::CallId
    }

    /// Makes the call identifier of a module and one of its functions.
    pub fn new(module: ModuleId, function: FunctionId) -> (call: CallId)
        ensures
            call@ == pack(MessageFlag::CallId, module@, function@),
    {
        proof {
            use_type_invariant(&function);
            lemma_pack_unpack(MessageFlag::CallId, module@, function@);
        }
        let word: u32 = (3u32 << 30) | ((module.0 as u32) << 12) | (function.0 as u32);
        CallId(MessageId(word))
    }

    /// The message identifier that this call identifier refines.
    pub fn message_id(self) -> (id: MessageId)
        ensures
            id@ == self@,
            flag_of(id@) == MessageFlag::CallId,
    {
        proof {
            use_type_invariant(&self);
        }
        self.0
    }

    /// Get the function id of current call.
    pub fn function_id(self) -> (function: FunctionId)
        ensures
            function@ == low12_of(self@),
    {
        FunctionId(self.0.function_or_information_id())
    }

    /// Get the module id of current call.
    pub fn module_id(self) -> (module: ModuleId)
        ensures
            module@ == module_of(self@),
    {
        self.0.module_id()
    }
}

/// UBIOS notify identifier: a message identifier whose flag is
/// [`MessageFlag::NotifyId`].
#[derive(Clone, Copy, Debug, PartialEq, Eq, Hash, Structural)]
pub struct NotifyId(MessageId);

impl View for NotifyId {
    type V = u32;

    closed spec fn view(&self) -> u32 {
        self.0@
    }
}

impl NotifyId {
    #[verifier::type_invariant]
    spec fn flagged(self) -> bool {
        flag_of(self.0@) == MessageFlag::NotifyId
    }

    /// Makes the notify identifier of a module and one of its information
    /// messages.
    pub fn new(module: ModuleId, information: InformationId) -> (notify: NotifyId)
        ensures
            notify@ == pack(MessageFlag::NotifyId, module@, information@),
    {
        proof {
            use_type_invariant(&information);
            lemma_pack_unpack(MessageFlag::NotifyId, module@, information@);
        }
        let word: u32 = (1u32 << 30) | ((module.0 as u32) << 12) | (information.0 as u32);
        NotifyId(MessageId(word))
    }

    /// The message identifier that this notify identifier refines.
    pub fn message_id(self) -> (id: MessageId)
        ensures
            id@ == self@,
            flag_of(id@) == MessageFlag::NotifyId,
    {
        proof {
            use_type_invariant(&self);
        }
        self.0
    }

    /// Get the information id of current notify.
    pub fn information_id(self) -> (information: InformationId)
        ensures
            information@ == low12_of(self@),
    {
        InformationId(self.0.function_or_information_id())
    }

    /// Get the module id of current notify.
    pub fn module_id(self) -> (module: ModuleId)
        ensures
            module@ == module_of(self@),
    {
        self.0.module_id()
    }
}

/// Every word has exactly one flag: the flag's bit pattern is the word's top
/// two bits, and the four flags split the words into four ranges.
pub proof fn lemma_flag_total(word: u32)
    ensures
        flag_bits(flag_of(word)) == word >> 30,
        flag_of(word) == MessageFlag::CallId <==> word >= 0xC000_0000,
        flag_of(word) == MessageFlag::Ack <==> 0x8000_0000 <= word < 0xC000_0000,
        flag_of(word) == MessageFlag::NotifyId <==> 0x4000_0000 <= word < 0x8000_0000,
        flag_of(word) == MessageFlag::Response <==> word < 0x4000_0000,
{
    assert(word >> 30 <= 3 && (word >> 30 == 3 <==> word >= 0xC000_0000) && (word >> 30 == 2 <==>
        0x8000_0000 <= word < 0xC000_0000) && (word >> 30 == 1 <==> 0x4000_0000 <= word
        < 0x8000_0000)) by (bit_vector);
}

/// A word with the Call ID flag narrows to a call identifier and not to a
/// notify identifier; a word with the Notify ID flag narrows to a notify
/// identifier and not to a call identifier.
pub proof fn lemma_narrowing_follows_flag(word: u32)
    ensures
        flag_of(word) == MessageFlag::CallId ==> call_word(word) == Some(word) && notify_word(
            word,
        ) is None,
        flag_of(word) == MessageFlag::NotifyId ==> notify_word(word) == Some(word) && call_word(
            word,
        ) is None,
{
}

/// Packing a flag, a module identifier and a 12-bit identifier, then taking
/// the word apart, gives the three parts back.
pub proof fn lemma_pack_unpack(flag: MessageFlag, module: u16, low12: u16)
    requires
        low12 <= 0xFFF,
    ensures
        flag_of(pack(flag, module, low12)) == flag,
        module_of(pack(flag, module, low12)) == module,
        low12_of(pack(flag, module, low12)) == low12,
{
    let top = flag_bits(flag);
    let word = pack(flag, module, low12);
    assert(word == (top << 30) | ((module as u32) << 12) | (low12 as u32));
    assert(top <= 3 && low12 <= 0xFFF && word == (top << 30) | ((module as u32) << 12) | (
    low12 as u32) ==> word >> 30 == top && ((word >> 12) & 0xffff) as u16 == module && (word
        & 0xfff) as u16 == low12) by (bit_vector);
}

/// No module identifier is both standard and OEM-specific. The standard ones
/// are `0x0000..=0x3FFF`, the OEM-specific ones `0xC000..=0xFFFF`; the values
/// between are neither.
pub proof fn lemma_module_classes_disjoint(module: u16)
    ensures
        !(is_standard_module(module) && is_oem_specific_module(module)),
        is_standard_module(module) <==> module <= 0x3FFF,
        is_oem_specific_module(module) <==> module >= 0xC000,
{
    assert((module & 0xC000 == 0x0000 <==> module <= 0x3FFF) && (module & 0xC000 == 0xC000 <==>
        module >= 0xC000)) by (bit_vector);
}

/// Each 12-bit function identifier falls in exactly one class, with the class
/// boundaries at `0x100`, `0x200`, `0x300`, `0x400` and `0x800`.
pub proof fn lemma_function_classes_partition(function: u16)
    requires
        function <= 0xFFF,
    ensures
        function_type_of(function) == FunctionIDType::SystemFunction <==> function <= 0x0FF,
        function_type_of(function) == FunctionIDType::BatteryFunction <==> 0x100 <= function
            <= 0x1FF,
        function_type_of(function) == FunctionIDType::RASFunction <==> 0x200 <= function <= 0x2FF,
        function_type_of(function) == FunctionIDType::SecurityFunction <==> 0x300 <= function
            <= 0x3FF,
        function_type_of(function) == FunctionIDType::Reserved <==> 0x400 <= function <= 0x7FF,
        function_type_of(function) == FunctionIDType::OEMFunction <==> 0x800 <= function <= 0xFFF,
{
}

/// Each 12-bit information identifier falls in exactly one class, with the
/// class boundary at `0x800`.
pub proof fn lemma_information_classes_partition(information: u16)
    requires
        information <= 0xFFF,
    ensures
        message_type_of(information) == InformationIdMessageType::StandardMessage <==> information
            <= 0x7FF,
        message_type_of(information) == InformationIdMessageType::OemSpecificMessage <==> 0x800
            <= information <= 0xFFF,
{
}

/// A message identifier is its word: two identifiers with the same word are
/// the same identifier.
pub proof fn lemma_word_determines_message_id(a: MessageId, b: MessageId)
    requires
        a@ == b@,
    ensures
        a == b,
{
}

} // verus!
