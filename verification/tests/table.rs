//! Tests of the build-time attribute table.

use tock_bootloader::attributes::{AttributeError, FlashInfo};

#[test]
fn attribute_zero_is_board() {
    let info = FlashInfo::new();
    let attribute = info.get_attribute(0).unwrap();
    assert_eq!(&attribute.key, b"board\0\0\0");
    let mut expected = [0u8; 47];
    expected[..19].copy_from_slice(b"stellaris launchpad");
    assert_eq!(attribute.value, expected);
    assert_eq!(attribute.length, 4);
}

#[test]
fn attribute_one_is_arch() {
    let info = FlashInfo::new();
    let attribute = info.get_attribute(1).unwrap();
    assert_eq!(&attribute.key, b"arch\0\0\0\0");
    let mut expected = [0u8; 47];
    expected[..9].copy_from_slice(b"cortex-m4");
    assert_eq!(attribute.value, expected);
    assert_eq!(attribute.length, 9);
}

#[test]
fn attribute_two_is_device() {
    let info = FlashInfo::new();
    let attribute = info.get_attribute(2).unwrap();
    assert_eq!(&attribute.key, b"jldevice");
    let mut expected = [0u8; 47];
    expected[..11].copy_from_slice(b"LM4F120H5QR");
    assert_eq!(attribute.value, expected);
    assert_eq!(attribute.length, 11);
}

#[test]
fn blank_attributes_all_zero() {
    let info = FlashInfo::new();
    for index in 3..16u8 {
        let attribute = info.get_attribute(index).unwrap();
        assert_eq!(attribute.key, [0u8; 8]);
        assert_eq!(attribute.length, 0);
        assert_eq!(attribute.value, [0u8; 47]);
    }
}

#[test]
fn get_attribute_rejects_out_of_range() {
    let info = FlashInfo::new();
    assert_eq!(info.get_attribute(16), Err(AttributeError::BadArguments));
    assert_eq!(info.get_attribute(17), Err(AttributeError::BadArguments));
    assert_eq!(info.get_attribute(255), Err(AttributeError::BadArguments));
}

#[test]
fn version_info_is_fixed_build_string() {
    let info = tock_bootloader::attributes::version_info();
    assert_eq!(info, b"{ \"version\":\"0.1.0\", \"name\":\"Tock Bootloader\" }".to_vec());
    assert_eq!(info.len(), 47);
}

#[test]
fn identification_block_layout() {
    let info = FlashInfo::new();
    assert_eq!(&info.flag_bootloader_exists, b"TOCKBOOTLOADER");
    assert_eq!(&info.flag_version_string, b"0.1.0\0\0\0");
    assert!(info.flag_padding.iter().all(|&byte| byte == 0));
    assert_eq!(info.attributes.len(), 16);
}
