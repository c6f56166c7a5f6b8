//! UBIOS user identifiers.
//!
//! A user identifier is a non-zero 32-bit word. Bits 31..24 hold the user
//! type, bits 23..0 the index of the user within that type.

use vstd::prelude::*;

verus! {

/// UBIOS user type for UserId.
#[derive(Clone, Copy, Debug, PartialEq, Eq, Hash, Structural)]
pub enum UserType {
    /// Unspecified user (`0xff`).
    Unspecified,
    /// Operating systems run in secure world (`0x30`).
    TrustedOs,
    /// Operating systems run in rich world (`0x20`).
    RichOs,
    /// Entities in this UBPU (Unified Bus processing unit) (`0x11`).
    EntityThisUbpu,
    /// Entities in other UBPUs (Unified Bus processing units) (`0x10`).
    EntityOtherUbpu,
    /// Baseboard Management Controller (`0x0b`).
    Bmc,
    /// Basic Input/Output System (`0x01`).
    Bios,
    /// Reserved user type: any other byte.
    Reserved,
}

/// The user type that a type byte stands for.
pub open spec fn user_type_of_byte(byte: u8) -> UserType {
    if byte == 0xff {
        UserType::Unspecified
    } else if byte == 0x30 {
        UserType::TrustedOs
    } else if byte == 0x20 {
        UserType::RichOs
    } else if byte == 0x11 {
        UserType::EntityThisUbpu
    } else if byte == 0x10 {
        UserType::EntityOtherUbpu
    } else if byte == 0x0b {
        UserType::Bmc
    } else if byte == 0x01 {
        UserType::Bios
    } else {
        UserType::Reserved
    }
}

/// The type byte held in bits 31..24 of `word`.
pub open spec fn type_byte_of(word: u32) -> u8 {
    (word >> 24) as u8
}

/// The user type held in bits 31..24 of `word`.
pub open spec fn user_type_of(word: u32) -> UserType {
    user_type_of_byte(type_byte_of(word))
}

/// The index held in bits 23..0 of `word`.
pub open spec fn index_of(word: u32) -> u32 {
    word & 0x00FF_FFFF
}

impl UserType {
    /// Classifies a type byte. Every byte has a user type: the bytes without
    /// a name of their own are `Reserved`.
    pub fn from_byte(byte: u8) -> (kind: UserType)
        ensures
            kind == user_type_of_byte(byte),
    {
        if byte == 0xff {
            UserType::Unspecified
        } else if byte == 0x30 {
            UserType::TrustedOs
        } else if byte == 0x20 {
            UserType::RichOs
        } else if byte == 0x11 {
            UserType::EntityThisUbpu
        } else if byte == 0x10 {
            UserType::EntityOtherUbpu
        } else if byte == 0x0b {
            UserType::Bmc
        } else if byte == 0x01 {
            UserType::Bios
        } else {
            UserType::Reserved
        }
    }
}

/// Non-zero UBIOS user identifier.
#[derive(Clone, Copy, Debug, PartialEq, Eq, Hash, Structural)]
pub struct UserId(u32);

impl View for UserId {
    type V = u32;

    closed spec fn view(&self) -> u32 {
        self.0
    }
}

impl UserId {
    #[verifier::type_invariant]
    spec fn non_zero(self) -> bool {
        self.0 != 0
    }

    /// Makes a user identifier of a raw word. Returns `None` for zero, which
    /// is no user identifier.
    pub fn new(word: u32) -> (id: Option<UserId>)
        ensures
            match id {
                Some(u) => word != 0 && u@ == word,
                None => word == 0,
            },
    {
        if word != 0 {
            Some(UserId(word))
        } else {
            None
        }
    }

    /// The raw word of this user identifier.
    pub fn raw(self) -> (word: u32)
        ensures
            word == self@,
            word != 0,
    {
        proof {
            use_type_invariant(&self);
        }
        self.0
    }

    /// Get the user type of this user ID.
    pub fn user_type(self) -> (kind: UserType)
        ensures
            kind == user_type_of(self@),
    {
        let word: u32 = self.0;
        assert(word >> 24 <= 0xff) by (bit_vector);
        UserType::from_byte((word >> 24) as u8)
    }

    /// Get the index of this user ID.
    pub fn index(self) -> (index: u32)
        ensures
            index == index_of(self@),
            index <= 0x00FF_FFFF,
    {
        let word: u32 = self.0;
        assert(word & 0x00FF_FFFF <= 0x00FF_FFFF) by (bit_vector);
        word & 0x00FF_FFFF
    }
}

/// The user type of a word is `Reserved` exactly when its top byte is none of
/// the seven named type bytes, and each named byte gives its own type. The
/// index is the word's low 24 bits, so type byte and index together make up
/// the word.
pub proof fn lemma_user_word_parts(word: u32)
    ensures
        user_type_of(word) == UserType::Reserved <==> !(type_byte_of(word) == 0xff || type_byte_of(
            word,
        ) == 0x30 || type_byte_of(word) == 0x20 || type_byte_of(word) == 0x11 || type_byte_of(word)
            == 0x10 || type_byte_of(word) == 0x0b || type_byte_of(word) == 0x01),
        user_type_of(word) == UserType::Unspecified <==> type_byte_of(word) == 0xff,
        user_type_of(word) == UserType::TrustedOs <==> type_byte_of(word) == 0x30,
        user_type_of(word) == UserType::RichOs <==> type_byte_of(word) == 0x20,
        user_type_of(word) == UserType::EntityThisUbpu <==> type_byte_of(word) == 0x11,
        user_type_of(word) == UserType::EntityOtherUbpu <==> type_byte_of(word) == 0x10,
        user_type_of(word) == UserType::Bmc <==> type_byte_of(word) == 0x0b,
        user_type_of(word) == UserType::Bios <==> type_byte_of(word) == 0x01,
        type_byte_of(word) as int == word as int / 0x100_0000,
        index_of(word) as int == word as int % 0x100_0000,
        word as int == type_byte_of(word) as int * 0x100_0000 + index_of(word) as int,
{
    assert((word >> 24) as u8 == word / 0x100_0000 && word & 0x00FF_FFFF == word % 0x100_0000)
        by (bit_vector);
}

/// The word that a table stores for a user identifier that may be absent:
/// the identifier's word, or zero for none.
pub open spec fn user_word(slot: Option<UserId>) -> u32 {
    match slot {
        Some(id) => id@,
        None => 0,
    }
}

/// Whether a user identifier that may be absent is a proper one: present
/// identifiers are not zero.
pub open spec fn user_slot_wf(slot: Option<UserId>) -> bool {
    match slot {
        Some(id) => id@ != 0,
        None => true,
    }
}

/// The word that a table stores for `slot`.
pub(crate) fn word_of_slot(slot: Option<UserId>) -> (word: u32)
    ensures
        word == user_word(slot),
        user_slot_wf(slot),
{
    match slot {
        Some(id) => id.raw(),
        None => 0,
    }
}

/// A user identifier is its word: two identifiers with the same word are the
/// same identifier, and so are two proper slots with the same word.
pub proof fn lemma_word_determines_user_id(a: Option<UserId>, b: Option<UserId>)
    requires
        user_slot_wf(a),
        user_slot_wf(b),
        user_word(a) == user_word(b),
    ensures
        a == b,
{
}

} // verus!
