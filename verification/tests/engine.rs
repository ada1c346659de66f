//! Tests of the flash programming engine.

use tock_bootloader::flash::{pack_le, Flash, FlashError};

/// A 16 KiB flash whose first two pages belong to the bootloader image.
fn fresh_flash() -> Flash {
    Flash::new(0, 0x800, 0x4000)
}

#[test]
fn pack_le_little_endian() {
    assert_eq!(pack_le(&[0x78, 0x56, 0x34, 0x12]), 0x1234_5678);
    assert_eq!(pack_le(&[0, 0, 0, 0]), 0);
    assert_eq!(pack_le(&[0xFF, 0xFF, 0xFF, 0xFF]), 0xFFFF_FFFF);
}

#[test]
fn write_page_single_chunk() {
    let mut flash = fresh_flash();
    let chunks = flash.write_page(0x800, &[0, 0, 0, 0]).unwrap();
    assert_eq!(chunks, 1);
    assert_eq!(flash.read_range(0x800, 4), vec![0, 0, 0, 0]);
    assert_eq!(flash.read_range(0x804, 4), vec![0xFF, 0xFF, 0xFF, 0xFF]);
}

#[test]
fn write_page_chunk_count_ceiling() {
    // 260 bytes = 65 words: two full 32-word chunks and one of a single word.
    let mut flash = fresh_flash();
    let data: Vec<u8> = (0..260u32).map(|i| (i % 251) as u8).collect();
    let chunks = flash.write_page(0x800, &data).unwrap();
    assert_eq!(chunks, 3);
    assert_eq!(flash.read_range(0x800, 260), data);
}

#[test]
fn write_page_full_page() {
    let mut flash = fresh_flash();
    let data = [0xAB_u8; 512];
    let chunks = flash.write_page(0x1000, &data).unwrap();
    assert_eq!(chunks, 4);
    assert_eq!(flash.read_range(0x1000, 512), data.to_vec());
}

#[test]
fn write_page_empty_is_ok() {
    let mut flash = fresh_flash();
    assert_eq!(flash.write_page(0x800, &[]), Ok(0));
}

#[test]
fn write_page_rejects_unaligned_length() {
    let mut flash = fresh_flash();
    assert_eq!(flash.write_page(0x800, &[1, 2, 3]), Err(FlashError::BadLength));
    assert_eq!(flash.write_page(0x800, &[1; 513]), Err(FlashError::BadLength));
    // Nothing was written.
    assert_eq!(flash.read_range(0x800, 4), vec![0xFF; 4]);
}

#[test]
fn write_page_rejects_misaligned_address() {
    let mut flash = fresh_flash();
    assert_eq!(flash.write_page(0x802, &[1, 2, 3, 4]), Err(FlashError::InvalidAddress));
}

#[test]
fn write_page_rejects_out_of_region() {
    let mut flash = fresh_flash();
    // Below the writable region: the bootloader's own image.
    assert_eq!(flash.write_page(0x400, &[1, 2, 3, 4]), Err(FlashError::InvalidAddress));
    // Overlapping the end of flash.
    assert_eq!(flash.write_page(0x3FFC, &[1; 8]), Err(FlashError::InvalidAddress));
    // Entirely past the end.
    assert_eq!(flash.write_page(0x4000, &[1, 2, 3, 4]), Err(FlashError::InvalidAddress));
    // The same range inside the region is fine.
    assert_eq!(flash.write_page(0x3FFC, &[1, 2, 3, 4]), Ok(1));
}

#[test]
fn erase_page_blanks_page() {
    let mut flash = fresh_flash();
    flash.write_page(0x800, &[0x5A; 8]).unwrap();
    flash.write_page(0xC00, &[0x77; 4]).unwrap();
    assert_eq!(flash.erase_page(0x800), Ok(()));
    assert_eq!(flash.read_range(0x800, 8), vec![0xFF; 8]);
    // The next page is untouched.
    assert_eq!(flash.read_range(0xC00, 4), vec![0x77; 4]);
}

#[test]
fn erase_page_rejects_misaligned() {
    let mut flash = fresh_flash();
    assert_eq!(flash.erase_page(0x801), Err(FlashError::InvalidAddress));
    assert_eq!(flash.erase_page(0x900), Err(FlashError::InvalidAddress));
}

#[test]
fn erase_page_rejects_bootloader_region() {
    let mut flash = fresh_flash();
    assert_eq!(flash.erase_page(0x400), Err(FlashError::InvalidAddress));
    assert_eq!(flash.erase_page(0), Err(FlashError::InvalidAddress));
}

#[test]
fn erase_page_rejects_past_end() {
    let mut flash = fresh_flash();
    assert_eq!(flash.erase_page(0x4000), Err(FlashError::InvalidAddress));
    assert_eq!(flash.erase_page(0x3C00), Ok(()));
}

#[test]
fn checksum_zero_bytes() {
    // Reference vectors for the IEEE CRC-32 variant the host tool uses.
    let mut flash = fresh_flash();
    flash.write_page(0x800, &[0; 8]).unwrap();
    assert_eq!(flash.checksum(0x800, 0), 0x0000_0000);
    assert_eq!(flash.checksum(0x800, 4), 0x2144_DF1C);
    assert_eq!(flash.checksum(0x800, 8), 0x6522_DF69);
}

#[test]
fn checksum_known_vector() {
    let mut flash = fresh_flash();
    flash.write_page(0x800, b"123456789\0\0\0").unwrap();
    assert_eq!(flash.checksum(0x800, 9), 0xCBF4_3926);
}

#[test]
fn read_range_returns_written() {
    let mut flash = fresh_flash();
    flash.write_page(0x800, &[1, 2, 3, 4, 5, 6, 7, 8]).unwrap();
    assert_eq!(flash.read_range(0x802, 4), vec![3, 4, 5, 6]);
    // The bootloader's own region is readable, just not writable.
    assert_eq!(flash.read_range(0x000, 2), vec![0xFF, 0xFF]);
}
