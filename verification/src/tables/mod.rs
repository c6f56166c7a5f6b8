//! UBIOS system information tables.
//!
//! Each table is a fixed-size record with its fields at fixed offsets, all
//! numbers little-endian. A table type states its layout once, as the
//! relation `is_image` between a value and the bytes that hold it; `decode`
//! and `encode` are the two directions of that relation.

pub mod call_id_service;
pub mod header;
pub mod isa_call;
pub mod memory_map;
pub mod notify_info;
pub mod root;
pub mod uvb;
