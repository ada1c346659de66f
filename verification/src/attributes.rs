//! The build-time attribute table.
//!
//! The bootloader's image carries a fixed identification block at a
//! link-time-fixed offset: a 14-byte "bootloader present" marker, an 8-byte
//! version string, a reserved padding region, then sixteen fixed-size
//! attribute slots. A host tool reads this block to identify the device, so
//! its layout and contents are reproduced byte for byte. The table is baked
//! in at build time and never changes while the bootloader runs.

use vstd::prelude::*;
use vstd::slice::slice_to_vec;

verus! {

/// Number of attribute slots in the table.
pub const ATTRIBUTE_SLOT_COUNT: usize = 16;

/// Append zero bytes to `s` until it is `n` long.
pub open spec fn zero_pad(s: Seq<u8>, n: nat) -> Seq<u8> {
    s + Seq::new((n - s.len()) as nat, |i: int| 0u8)
}

/// The marker that tells a host tool a bootloader is present: the ASCII
/// bytes of "TOCKBOOTLOADER".
pub open spec fn marker_bytes() -> Seq<u8> {
    seq![84u8, 79u8, 67u8, 75u8, 66u8, 79u8, 79u8, 84u8, 76u8, 79u8, 65u8, 68u8, 69u8, 82u8]
}

/// The short version flag baked beside the marker: "0.1.0" zero-padded to
/// eight bytes.
pub open spec fn version_flag_bytes() -> Seq<u8> {
    zero_pad(seq![48u8, 46u8, 49u8, 46u8, 48u8], 8)
}

/// The text an `Info` request is answered with, matching the version flag.
pub open spec fn version_info_bytes() -> Seq<u8> {
    seq![123u8, 32u8, 34u8, 118u8, 101u8, 114u8, 115u8, 105u8, 111u8, 110u8, 34u8, 58u8, 34u8, 48u8, 46u8, 49u8, 46u8, 48u8, 34u8, 44u8, 32u8, 34u8, 110u8, 97u8, 109u8, 101u8, 34u8, 58u8, 34u8, 84u8, 111u8, 99u8, 107u8, 32u8, 66u8, 111u8, 111u8, 116u8, 108u8, 111u8, 97u8, 100u8, 101u8, 114u8, 34u8, 32u8, 125u8]
}

/// Key of attribute slot 0: "board", zero-padded.
pub open spec fn board_key_bytes() -> Seq<u8> {
    zero_pad(seq![98u8, 111u8, 97u8, 114u8, 100u8], 8)
}

/// Value of attribute slot 0: "stellaris launchpad", zero-padded.
pub open spec fn board_value_bytes() -> Seq<u8> {
    zero_pad(seq![115u8, 116u8, 101u8, 108u8, 108u8, 97u8, 114u8, 105u8, 115u8, 32u8, 108u8, 97u8, 117u8, 110u8, 99u8, 104u8, 112u8, 97u8, 100u8], 47)
}

/// Key of attribute slot 1: "arch", zero-padded.
pub open spec fn arch_key_bytes() -> Seq<u8> {
    zero_pad(seq![97u8, 114u8, 99u8, 104u8], 8)
}

/// Value of attribute slot 1: "cortex-m4", zero-padded.
pub open spec fn arch_value_bytes() -> Seq<u8> {
    zero_pad(seq![99u8, 111u8, 114u8, 116u8, 101u8, 120u8, 45u8, 109u8, 52u8], 47)
}

/// Key of attribute slot 2: "jldevice".
pub open spec fn device_key_bytes() -> Seq<u8> {
    seq![106u8, 108u8, 100u8, 101u8, 118u8, 105u8, 99u8, 101u8]
}

/// Value of attribute slot 2: "LM4F120H5QR", zero-padded.
pub open spec fn device_value_bytes() -> Seq<u8> {
    zero_pad(seq![76u8, 77u8, 52u8, 70u8, 49u8, 50u8, 48u8, 72u8, 53u8, 81u8, 82u8], 47)
}

/// Why an attribute lookup was refused.
#[derive(Clone, Copy, PartialEq, Eq, Structural, Debug)]
pub enum AttributeError {
    /// The index names no slot of the table.
    BadArguments,
}

/// One identification record: an 8-byte key, the declared length of the
/// value, and a fixed-capacity value buffer.
#[derive(Clone, Copy, PartialEq, Eq, Debug)]
pub struct Attribute {
    pub key: [u8; 8],
    pub length: u8,
    pub value: [u8; 47],
}

impl Attribute {
    /// An unused slot: key, length and value all zero.
    pub open spec fn is_blank(self) -> bool {
        &&& self.length == 0
        &&& forall|i: int| 0 <= i < 8 ==> self.key@[i] == 0
        &&& forall|i: int| 0 <= i < 47 ==> self.value@[i] == 0
    }

    /// Build an unused slot.
    pub fn blank() -> (r: Attribute)
        ensures
            r.is_blank(),
    {
        Attribute { key: [0; 8], length: 0, value: [0; 47] }
    }
}

/// The identification block a host tool reads out of the image: the
/// presence marker, the version flag, reserved padding, and the attribute
/// slots in table order.
pub struct FlashInfo {
    pub flag_bootloader_exists: [u8; 14],
    pub flag_version_string: [u8; 8],
    pub flag_padding: [u8; 490],
    pub attributes: [Attribute; 16],
}

impl FlashInfo {
    /// The block holds exactly what this build bakes in: marker, version
    /// flag, zero padding, three named attributes, and blank slots after
    /// them.
    pub open spec fn wf(self) -> bool {
        &&& self.flag_bootloader_exists@ == marker_bytes()
        &&& self.flag_version_string@ == version_flag_bytes()
        &&& forall|i: int| 0 <= i < 490 ==> self.flag_padding@[i] == 0
        &&& self.attributes@[0].key@ == board_key_bytes()
        &&& self.attributes@[0].length == 4
        &&& self.attributes@[0].value@ == board_value_bytes()
        &&& self.attributes@[1].key@ == arch_key_bytes()
        &&& self.attributes@[1].length == 9
        &&& self.attributes@[1].value@ == arch_value_bytes()
        &&& self.attributes@[2].key@ == device_key_bytes()
        &&& self.attributes@[2].length == 11
        &&& self.attributes@[2].value@ == device_value_bytes()
        &&& forall|i: int| 3 <= i < 16 ==> self.attributes@[i].is_blank()
    }

    /// Build the identification block exactly as the image bakes it in.
    pub fn new() -> (r: FlashInfo)
        ensures
            r.wf(),
    {
        let board = Attribute {
            key: [98, 111, 97, 114, 100, 0, 0, 0],
            length: 4,
            value: [115, 116, 101, 108, 108, 97, 114, 105, 115, 32, 108, 97, 117, 110, 99, 104, 112, 97, 100, 0, 0, 0, 0, 0, 0, 0, 0, 0, 0, 0, 0, 0, 0, 0, 0, 0, 0, 0, 0, 0, 0, 0, 0, 0, 0, 0, 0],
        };
        let arch = Attribute {
            key: [97, 114, 99, 104, 0, 0, 0, 0],
            length: 9,
            value: [99, 111, 114, 116, 101, 120, 45, 109, 52, 0, 0, 0, 0, 0, 0, 0, 0, 0, 0, 0, 0, 0, 0, 0, 0, 0, 0, 0, 0, 0, 0, 0, 0, 0, 0, 0, 0, 0, 0, 0, 0, 0, 0, 0, 0, 0, 0],
        };
        let device = Attribute {
            key: [106, 108, 100, 101, 118, 105, 99, 101],
            length: 11,
            value: [76, 77, 52, 70, 49, 50, 48, 72, 53, 81, 82, 0, 0, 0, 0, 0, 0, 0, 0, 0, 0, 0, 0, 0, 0, 0, 0, 0, 0, 0, 0, 0, 0, 0, 0, 0, 0, 0, 0, 0, 0, 0, 0, 0, 0, 0, 0],
        };
        let blank = Attribute::blank();
        let r = FlashInfo {
            flag_bootloader_exists: [84, 79, 67, 75, 66, 79, 79, 84, 76, 79, 65, 68, 69, 82],
            flag_version_string: [48, 46, 49, 46, 48, 0, 0, 0],
            flag_padding: [0; 490],
            attributes: [
                board, arch, device, blank, blank, blank, blank, blank, blank, blank, blank,
                blank, blank, blank, blank, blank,
            ],
        };
        proof {
            assert(r.flag_bootloader_exists@ =~= marker_bytes());
            assert(r.flag_version_string@ =~= version_flag_bytes());
            assert(r.attributes@[0].key@ =~= board_key_bytes());
            assert(r.attributes@[0].value@ =~= board_value_bytes());
            assert(r.attributes@[1].key@ =~= arch_key_bytes());
            assert(r.attributes@[1].value@ =~= arch_value_bytes());
            assert(r.attributes@[2].key@ =~= device_key_bytes());
            assert(r.attributes@[2].value@ =~= device_value_bytes());
        }
        r
    }

    /// Answer a "get attribute by index" query against the table.
    ///
    /// Every index inside the table succeeds with that slot's record, blank
    /// slots included; every index past the table is refused.
    pub fn get_attribute(&self, index: u8) -> (r: Result<Attribute, AttributeError>)
        ensures
            index < ATTRIBUTE_SLOT_COUNT ==> (r matches Ok(a)
                && a == self.attributes@[index as int]),
            index >= ATTRIBUTE_SLOT_COUNT ==> r == Err::<Attribute, AttributeError>(
                AttributeError::BadArguments,
            ),
    {
        if (index as usize) < ATTRIBUTE_SLOT_COUNT {
            Ok(self.attributes[index as usize])
        } else {
            Err(AttributeError::BadArguments)
        }
    }
}

/// The bytes an `Info` request is answered with: a fixed build string
/// naming the bootloader and its version.
pub fn version_info() -> (r: Vec<u8>)
    ensures
        r@ == version_info_bytes(),
        r@.len() == 47,
{
    let text: [u8; 47] = [123, 32, 34, 118, 101, 114, 115, 105, 111, 110, 34, 58, 34, 48, 46, 49, 46, 48, 34, 44, 32, 34, 110, 97, 109, 101, 34, 58, 34, 84, 111, 99, 107, 32, 66, 111, 111, 116, 108, 111, 97, 100, 101, 114, 34, 32, 125];
    let r = slice_to_vec(text.as_slice());
    proof {
        assert(r@ =~= version_info_bytes());
    }
    r
}

} // verus!
