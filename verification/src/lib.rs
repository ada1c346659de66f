//! Core logic of a serial field-upgrade bootloader: a bounds-checked flash
//! programming engine, the build-time attribute table, and the command
//! dispatch step that turns decoded protocol commands into flash operations
//! and responses.
//!
//! The serial transport, GPIO pins and CPU startup glue are external
//! collaborators; this crate holds the logic between them.

pub mod attributes;
pub mod board;
pub mod crc32;
pub mod device;
pub mod dispatch;
pub mod flash;
mod wire;
mod wire_types;
