//! Tests of the dispatcher and handlers called directly, below the codec.

use tock_bootloader::attributes::FlashInfo;
use tock_bootloader::dispatch::{
    dispatch, handle_crc, handle_getattr, handle_rrange, handle_write_page, BootCommand,
    BootResponse,
};
use tock_bootloader::flash::Flash;

fn setup() -> (Flash, FlashInfo) {
    (Flash::new(0, 0x800, 0x4000), FlashInfo::new())
}

#[test]
fn dispatch_ping_is_pong() {
    let (mut flash, info) = setup();
    let (response, reset) = dispatch(&BootCommand::Ping, &mut flash, &info);
    assert_eq!(response, Some(BootResponse::Pong));
    assert!(!reset);
}

#[test]
fn dispatch_reset_asks_for_decoder_reset() {
    let (mut flash, info) = setup();
    let (response, reset) = dispatch(&BootCommand::Reset, &mut flash, &info);
    assert_eq!(response, None);
    assert!(reset);
}

#[test]
fn dispatch_write_four_zero_bytes_is_okay() {
    let (mut flash, info) = setup();
    let command = BootCommand::WritePage { address: 0x800, data: vec![0; 4] };
    let (response, reset) = dispatch(&command, &mut flash, &info);
    assert_eq!(response, Some(BootResponse::Okay));
    assert!(!reset);
    assert_eq!(flash.read_range(0x800, 4), vec![0, 0, 0, 0]);
}

#[test]
fn dispatch_write_unaligned_length_is_bad_arguments() {
    let (mut flash, info) = setup();
    let command = BootCommand::WritePage { address: 0x800, data: vec![0; 6] };
    let (response, _) = dispatch(&command, &mut flash, &info);
    assert_eq!(response, Some(BootResponse::BadArguments));
    // Nothing was written.
    assert_eq!(flash.read_range(0x800, 4), vec![0xFF; 4]);
}

#[test]
fn dispatch_unsupported_is_unknown() {
    let (mut flash, info) = setup();
    let (response, reset) = dispatch(&BootCommand::Unsupported, &mut flash, &info);
    assert_eq!(response, Some(BootResponse::Unknown));
    assert!(!reset);
}

#[test]
fn dispatch_info_carries_version_text() {
    let (mut flash, info) = setup();
    let (response, _) = dispatch(&BootCommand::Info, &mut flash, &info);
    match response {
        Some(BootResponse::Info { info: text }) => {
            assert_eq!(text, b"{ \"version\":\"0.1.0\", \"name\":\"Tock Bootloader\" }".to_vec());
        }
        other => panic!("unexpected response {:?}", other),
    }
}

#[test]
fn handle_getattr_out_of_range_is_bad_arguments() {
    let (_, info) = setup();
    assert_eq!(handle_getattr(&info, 16), Some(BootResponse::BadArguments));
    assert_eq!(handle_getattr(&info, 255), Some(BootResponse::BadArguments));
}

#[test]
fn handle_crc_out_of_range_is_bad_arguments() {
    let (flash, _) = setup();
    assert_eq!(handle_crc(&flash, 0x4000, 1), Some(BootResponse::BadArguments));
    assert_eq!(handle_crc(&flash, 0xFFFF_FFFC, 8), Some(BootResponse::BadArguments));
}

#[test]
fn handle_rrange_out_of_range_is_bad_arguments() {
    let (flash, _) = setup();
    assert_eq!(handle_rrange(&flash, 0x3FFF, 2), Some(BootResponse::BadArguments));
}

#[test]
fn handle_write_page_stops_at_region_end_without_rollback() {
    // A write that runs past the end of flash is refused before any
    // hardware chunk is issued.
    let (mut flash, _) = setup();
    let data = vec![0x55; 256];
    let response = handle_write_page(&mut flash, 0x3F80, &data);
    assert_eq!(response, Some(BootResponse::BadArguments));
    assert_eq!(flash.read_range(0x3F80, 4), vec![0xFF; 4]);
}
