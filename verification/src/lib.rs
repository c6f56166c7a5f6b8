//! Identifier codec and system-information-table layouts of the UBIOS
//! firmware interface.
//!
//! The identifier codec ([`message`], [`user`]) takes 32-bit message and user
//! identifiers apart and classifies their fields. The table layout model
//! ([`tables`]) decodes the system information tables from bytes and encodes
//! them back; [`wire`] holds the little-endian numbers that both directions
//! share, and [`error`] the ways in which decoding fails.

pub mod error;
pub mod message;
pub mod tables;
pub mod user;
pub mod wire;

pub use error::{DecodeError, TagField};
pub use message::{
    CallId, FunctionIDType, FunctionId, InformationId, InformationIdMessageType, MessageFlag,
    MessageId, ModuleId, NotifyId,
};
pub use tables::call_id_service::{
    CallIdServiceGroupUsageType, CallIdServiceOdGroup, CallIdServiceOdHeader, CallIdServiceTable,
    CallIdServiceUb,
};
pub use tables::header::GeneralHeader;
pub use tables::isa_call::{IsaCallBufferType, IsaCallHeader, IsaCallTable};
pub use tables::memory_map::{
    MemoryMapRegionTable, MemoryMapTable, MemoryRegionType, MemoryReliability,
};
pub use tables::notify_info::{
    NotifyInfoIrq, NotifyInfoIrqClear, NotifyInfoOdHeader, NotifyInfoRingBuffer,
    NotifyInfoRingBufferData, NotifyInfoTable,
};
pub use tables::root::RootTable;
pub use tables::uvb::{UvbOdHeader, UvbOdMember, UvbTable, UvbWindowDescript};
pub use user::{UserId, UserType};
