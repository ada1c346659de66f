//! The command dispatcher.
//!
//! Each decoded command maps to exactly one flash engine or attribute
//! table call, and every error those can raise is turned into a protocol
//! response — nothing here may bring the device down. Commands the
//! protocol knows but this bootloader does not implement are answered
//! `Unknown`, never crashed on.

use crate::attributes::{version_info, version_info_bytes, AttributeError, FlashInfo,
    ATTRIBUTE_SLOT_COUNT};
use crate::crc32::crc32_ieee_of;
use crate::flash::Flash;
use vstd::prelude::*;

verus! {

/// A command decoded from the wire, carrying its own copies of any data.
///
/// Only the variants this bootloader acts on are distinguished; every
/// other command the protocol can carry decodes to `Unsupported`.
#[derive(PartialEq, Eq, Debug)]
#[allow(inconsistent_fields)]
pub enum BootCommand {
    Ping,
    Info,
    Reset,
    ErasePage { address: u32 },
    WritePage { address: u32, data: Vec<u8> },
    ReadRange { address: u32, length: u16 },
    GetAttr { index: u8 },
    CrcIntFlash { address: u32, length: u32 },
    /// A command the protocol recognises but this bootloader does not act
    /// on.
    Unsupported,
}

/// A response ready to be encoded onto the wire.
#[derive(PartialEq, Eq, Debug)]
pub enum BootResponse {
    Pong,
    /// The protocol's plain success response.
    Okay,
    BadArguments,
    InternalError,
    Unknown,
    Info { info: Vec<u8> },
    ReadRange { data: Vec<u8> },
    GetAttr { key: [u8; 8], value: [u8; 47] },
    CrcIntFlash { crc: u32 },
}

/// Answer a CRC request: the checksum of `length` bytes of flash starting
/// at `address`, or `BadArguments` for a range that leaves mapped flash.
pub fn handle_crc(flash: &Flash, address: u32, length: u32) -> (r: Option<BootResponse>)
    requires
        flash.wf(),
    ensures
        flash.readable(address as int, length as int) ==> (r matches Some(resp)
            && resp matches BootResponse::CrcIntFlash { crc }
            && crc == crc32_ieee_of(flash.window(address as int, length as int))),
        !flash.readable(address as int, length as int) ==> r == Some(BootResponse::BadArguments),
{
    if flash.is_readable(address, length) {
        Some(BootResponse::CrcIntFlash { crc: flash.checksum(address, length) })
    } else {
        Some(BootResponse::BadArguments)
    }
}

/// Answer a read request: a copy of `length` bytes of flash starting at
/// `address`, or `BadArguments` for a range that leaves mapped flash.
pub fn handle_rrange(flash: &Flash, address: u32, length: u16) -> (r: Option<BootResponse>)
    requires
        flash.wf(),
    ensures
        flash.readable(address as int, length as int) ==> (r matches Some(resp)
            && resp matches BootResponse::ReadRange { data }
            && data@ == flash.window(address as int, length as int)),
        !flash.readable(address as int, length as int) ==> r == Some(BootResponse::BadArguments),
{
    if flash.is_readable(address, length as u32) {
        Some(BootResponse::ReadRange { data: flash.read_range(address, length) })
    } else {
        Some(BootResponse::BadArguments)
    }
}

/// Answer an attribute query: the slot's key and value for an index inside
/// the table, blank slots included, and `BadArguments` past it.
pub fn handle_getattr(info: &FlashInfo, index: u8) -> (r: Option<BootResponse>)
    ensures
        index < ATTRIBUTE_SLOT_COUNT ==> (r matches Some(resp)
            && resp matches BootResponse::GetAttr { key, value }
            && key@ == info.attributes@[index as int].key@
            && value@ == info.attributes@[index as int].value@),
        index >= ATTRIBUTE_SLOT_COUNT ==> r == Some(BootResponse::BadArguments),
{
    match info.get_attribute(index) {
        Ok(attribute) => Some(BootResponse::GetAttr { key: attribute.key, value: attribute.value }),
        Err(AttributeError::BadArguments) => Some(BootResponse::BadArguments),
    }
}

/// Answer an erase request: erase the page and report success, or report
/// `BadArguments` for a misaligned or out-of-region address.
pub fn handle_erase_page(flash: &mut Flash, address: u32) -> (r: Option<BootResponse>)
    requires
        old(flash).wf(),
    ensures
        final(flash).wf(),
        final(flash).same_region(*old(flash)),
        old(flash).erasable(address as int) ==> r == Some(BootResponse::Okay)
            && final(flash).erased_from(*old(flash), address as int),
        !old(flash).erasable(address as int) ==> r == Some(BootResponse::BadArguments)
            && final(flash).same_state(*old(flash)),
{
    match flash.erase_page(address) {
        Ok(()) => Some(BootResponse::Okay),
        Err(_) => Some(BootResponse::BadArguments),
    }
}

/// Answer a write request: write the buffer one hardware chunk at a time
/// and report success, or report `BadArguments` for a buffer that is not
/// whole words or a range that leaves the writable region. A rejected
/// request issues no hardware write at all.
pub fn handle_write_page(flash: &mut Flash, address: u32, data: &[u8]) -> (r: Option<
    BootResponse,
>)
    requires
        old(flash).wf(),
    ensures
        final(flash).wf(),
        final(flash).same_region(*old(flash)),
        data@.len() % 4 != 0 ==> r == Some(BootResponse::BadArguments)
            && final(flash).same_state(*old(flash)),
        data@.len() % 4 == 0 && old(flash).writable(address as int, data@.len() as int) ==> r
            == Some(BootResponse::Okay)
            && final(flash).written_from(*old(flash), address as int, data@),
        data@.len() % 4 == 0 && !old(flash).writable(address as int, data@.len() as int) ==> r
            == Some(BootResponse::BadArguments)
            && final(flash).same_state(*old(flash)),
{
    match flash.write_page(address, data) {
        Ok(_) => Some(BootResponse::Okay),
        Err(_) => Some(BootResponse::BadArguments),
    }
}

/// Map one decoded command to at most one engine or table call and the
/// response owed for it. The second half of the result says whether the
/// decoder's partial-frame state must be reset before the next byte.
pub fn dispatch(command: &BootCommand, flash: &mut Flash, info: &FlashInfo) -> (r: (
    Option<BootResponse>,
    bool,
))
    requires
        old(flash).wf(),
    ensures
        final(flash).wf(),
        final(flash).same_region(*old(flash)),
        match *command {
            BootCommand::Ping => r.0 == Some(BootResponse::Pong) && r.1 == false
                && final(flash).same_state(*old(flash)),
            BootCommand::Info => (r.0 matches Some(BootResponse::Info { info: text })
                && text@ == version_info_bytes()) && r.1 == false
                && final(flash).same_state(*old(flash)),
            BootCommand::Reset => r.0 is None && r.1 == true && final(flash).same_state(
                *old(flash),
            ),
            BootCommand::ErasePage { address } => r.1 == false && (
                if old(flash).erasable(address as int) {
                    r.0 == Some(BootResponse::Okay) && final(flash).erased_from(
                        *old(flash),
                        address as int,
                    )
                } else {
                    r.0 == Some(BootResponse::BadArguments) && final(flash).same_state(*old(flash))
                }),
            BootCommand::WritePage { address, ref data } => r.1 == false && (
                if data@.len() % 4 != 0 {
                    r.0 == Some(BootResponse::BadArguments) && final(flash).same_state(*old(flash))
                } else if old(flash).writable(address as int, data@.len() as int) {
                    r.0 == Some(BootResponse::Okay) && final(flash).written_from(
                        *old(flash),
                        address as int,
                        data@,
                    )
                } else {
                    r.0 == Some(BootResponse::BadArguments) && final(flash).same_state(*old(flash))
                }),
            BootCommand::ReadRange { address, length } => r.1 == false && final(flash).same_state(
                *old(flash),
            ) && (
                if old(flash).readable(address as int, length as int) {
                    r.0 matches Some(BootResponse::ReadRange { data })
                        && data@ == old(flash).window(address as int, length as int)
                } else {
                    r.0 == Some(BootResponse::BadArguments)
                }),
            BootCommand::GetAttr { index } => r.1 == false && final(flash).same_state(*old(flash))
                && (
                if index < ATTRIBUTE_SLOT_COUNT {
                    r.0 matches Some(BootResponse::GetAttr { key, value })
                        && key@ == info.attributes@[index as int].key@
                        && value@ == info.attributes@[index as int].value@
                } else {
                    r.0 == Some(BootResponse::BadArguments)
                }),
            BootCommand::CrcIntFlash { address, length } => r.1 == false
                && final(flash).same_state(*old(flash)) && (
                if old(flash).readable(address as int, length as int) {
                    r.0 matches Some(BootResponse::CrcIntFlash { crc }) && crc == crc32_ieee_of(
                        old(flash).window(address as int, length as int),
                    )
                } else {
                    r.0 == Some(BootResponse::BadArguments)
                }),
            BootCommand::Unsupported => r.0 == Some(BootResponse::Unknown) && r.1 == false
                && final(flash).same_state(*old(flash)),
        },
{
    match command {
        BootCommand::Ping => (Some(BootResponse::Pong), false),
        BootCommand::Info => (Some(BootResponse::Info { info: version_info() }), false),
        BootCommand::Reset => (None, true),
        BootCommand::ErasePage { address } => (handle_erase_page(flash, *address), false),
        BootCommand::WritePage { address, data } => (
            handle_write_page(flash, *address, data.as_slice()),
            false,
        ),
        BootCommand::ReadRange { address, length } => (handle_rrange(flash, *address, *length), false),
        BootCommand::GetAttr { index } => (handle_getattr(info, *index), false),
        BootCommand::CrcIntFlash { address, length } => (handle_crc(flash, *address, *length), false),
        BootCommand::Unsupported => (Some(BootResponse::Unknown), false),
    }
}

} // verus!
