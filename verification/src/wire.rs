//! The boundary to the wire codec.
//!
//! The byte-stream framing is a fixed external protocol implemented by the
//! tockloader-proto crate; this module declares that codec's types to the
//! verifier and wraps the few calls the run loop makes. Everything here is
//! trusted, and the contracts state only what the codec's source shows:
//! the dispatcher is verified against every outcome a decode step can
//! have.

use crate::dispatch::{BootCommand, BootResponse};
use tockloader_proto as proto;
use vstd::prelude::*;

verus! {

/// What one decoder step produced.
pub enum DecodeEvent {
    /// No complete frame yet.
    Pending,
    /// The decoder refused the byte stream.
    Failed,
    /// A complete command frame.
    Frame(BootCommand),
}

/// Relies on tockloader_proto::CommandDecoder::new: a decoder with an
/// empty partial-frame buffer.
#[verifier::external_body]
pub(crate) fn decoder_new() -> proto::CommandDecoder {
    proto::CommandDecoder::new()
}

/// Relies on tockloader_proto::CommandDecoder::reset: drops whatever bytes
/// of a partly received frame the decoder holds.
#[verifier::external_body]
pub(crate) fn decoder_reset(decoder: &mut proto::CommandDecoder) {
    decoder.reset();
}

/// Relies on the shape of tockloader_proto::Command: each arm moves one
/// variant's fields into the library's own command type, and every variant
/// the bootloader does not act on becomes `Unsupported`.
#[verifier::external_body]
fn convert_command(command: proto::Command<'_>) -> BootCommand {
    match command {
        proto::Command::Ping => BootCommand::Ping,
        proto::Command::Info => BootCommand::Info,
        proto::Command::Reset => BootCommand::Reset,
        proto::Command::ErasePage { address } => BootCommand::ErasePage { address },
        proto::Command::WritePage { address, data } => BootCommand::WritePage { address, data: data.to_vec() },
        proto::Command::ReadRange { address, length } => BootCommand::ReadRange { address, length },
        proto::Command::GetAttr { index } => BootCommand::GetAttr { index },
        proto::Command::CrcIntFlash { address, length } => BootCommand::CrcIntFlash { address, length },
        _ => BootCommand::Unsupported,
    }
}

/// Relies on tockloader_proto::CommandDecoder::receive: feeds the decoder
/// one byte and reports whether a frame completed, the byte was refused,
/// or more bytes are needed.
#[verifier::external_body]
pub(crate) fn decoder_receive(decoder: &mut proto::CommandDecoder, byte: u8) -> DecodeEvent {
    match decoder.receive(byte) {
        Result::Ok(Option::None) => DecodeEvent::Pending,
        Result::Ok(Option::Some(command)) => DecodeEvent::Frame(convert_command(command)),
        Result::Err(_) => DecodeEvent::Failed,
    }
}

/// Relies on the shape of tockloader_proto::Response: each arm borrows one
/// variant's fields from the library's own response type.
#[verifier::external_body]
fn convert_response<'a>(response: &'a BootResponse) -> proto::Response<'a> {
    match response {
        BootResponse::Pong => proto::Response::Pong,
        BootResponse::Okay => proto::Response::Ok,
        BootResponse::BadArguments => proto::Response::BadArguments,
        BootResponse::InternalError => proto::Response::InternalError,
        BootResponse::Unknown => proto::Response::Unknown,
        BootResponse::Info { info } => proto::Response::Info { info: info.as_slice() },
        BootResponse::ReadRange { data } => proto::Response::ReadRange { data: data.as_slice() },
        BootResponse::GetAttr { key, value } => proto::Response::GetAttr { key, value },
        BootResponse::CrcIntFlash { crc } => proto::Response::CrcIntFlash { crc: *crc },
    }
}

/// Relies on tockloader_proto::ResponseEncoder::new and its Iterator
/// impl: renders a response into its wire bytes. `new` refuses only a
/// `GetAttr` whose key is not 8 bytes or whose value is over 55, and an
/// `Info` over 192 bytes; this library's `GetAttr` carries fixed 8- and
/// 47-byte buffers, so of its responses only an oversized `Info` can fail
/// to encode.
#[verifier::external_body]
pub(crate) fn encode_response(response: &BootResponse) -> (bytes: Option<Vec<u8>>)
    ensures
        (match *response {
            BootResponse::Info { info } => info@.len() <= 192,
            _ => true,
        }) ==> bytes is Some,
{
    let proto_response = convert_response(response);
    let mut encoder = match proto::ResponseEncoder::new(&proto_response) {
        Result::Ok(encoder) => encoder,
        Result::Err(_) => return None,
    };
    let mut out = Vec::new();
    while let Some(byte) = encoder.next() {
        out.push(byte);
    }
    Some(out)
}

} // verus!
