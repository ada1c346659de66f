//! The device's run state.
//!
//! One value of `Bootloader` is everything the run loop owns: the codec's
//! partial-frame buffer, the flash engine, and the identification table.
//! The platform layer polls the transport and hands each received byte to
//! `process_byte`; whatever bytes come back must be written to the
//! transport in full before the next byte is polled.

use crate::attributes::FlashInfo;
use crate::dispatch::{dispatch, BootResponse};
use crate::flash::Flash;
use crate::wire::{decoder_new, decoder_receive, decoder_reset, encode_response, DecodeEvent};
use vstd::prelude::*;

verus! {

/// The bootloader: decoder state, flash engine, attribute table.
pub struct Bootloader {
    decoder: tockloader_proto::CommandDecoder,
    flash: Flash,
    info: FlashInfo,
}

impl Bootloader {
    /// The flash engine this bootloader drives.
    pub closed spec fn flash_model(self) -> Flash {
        self.flash
    }

    /// The identification table this bootloader answers from.
    pub closed spec fn info_model(self) -> FlashInfo {
        self.info
    }

    pub closed spec fn wf(self) -> bool {
        &&& self.flash.wf()
        &&& self.info.wf()
    }

    /// Start the bootloader on the given flash, with a fresh decoder and
    /// the identification table this build bakes in.
    pub fn new(flash: Flash) -> (r: Bootloader)
        requires
            flash.wf(),
        ensures
            r.wf(),
            r.flash_model() == flash,
            r.info_model().wf(),
    {
        Bootloader { decoder: decoder_new(), flash, info: FlashInfo::new() }
    }

    /// Feed one byte received from the transport.
    ///
    /// The byte goes to the codec; a completed frame is dispatched, a
    /// refused stream is answered `InternalError`, and an incomplete frame
    /// asks for nothing. A `Reset` frame clears the decoder's partial-frame
    /// state after its dispatch, so the next frame starts from a clean
    /// decoder. The result is the full wire encoding of whatever response
    /// the byte earned, ready to transmit before the next poll.
    ///
    /// Whatever the byte decodes to, the flash region's bounds and the
    /// identification table never move; what the dispatch of each command
    /// does to the flash contents is stated on `dispatch`.
    pub fn process_byte(&mut self, byte: u8) -> (r: Option<Vec<u8>>)
        requires
            old(self).wf(),
        ensures
            final(self).wf(),
            final(self).flash_model().same_region(old(self).flash_model()),
            final(self).info_model() == old(self).info_model(),
    {
        let event = decoder_receive(&mut self.decoder, byte);
        let (response, need_reset) = match event {
            DecodeEvent::Pending => (None, false),
            DecodeEvent::Failed => (Some(BootResponse::InternalError), false),
            DecodeEvent::Frame(command) => dispatch(&command, &mut self.flash, &self.info),
        };
        if need_reset {
            decoder_reset(&mut self.decoder);
        }
        match response {
            Some(response) => encode_response(&response),
            None => None,
        }
    }

    /// The flash engine, for reading state out.
    pub fn flash(&self) -> (r: &Flash)
        ensures
            *r == self.flash_model(),
    {
        &self.flash
    }

    /// The identification table.
    pub fn info(&self) -> (r: &FlashInfo)
        ensures
            *r == self.info_model(),
    {
        &self.info
    }
}

} // verus!
