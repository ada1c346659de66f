//! The flash programming engine.
//!
//! The engine owns a model of the device's linear flash: its address range,
//! its contents, and the start of the region that the resident application
//! occupies and that the host tool is allowed to erase and rewrite. Every
//! operation is validated against that range before any byte is touched, so
//! a bad address from the host can never reach the bootloader's own image.

use crate::crc32::{crc32_ieee, crc32_ieee_of};
use vstd::arithmetic::div_mod::{lemma_basic_div, lemma_div_plus_one, lemma_fundamental_div_mod_converse};
use vstd::bytes::*;
use vstd::prelude::*;
use vstd::slice::{slice_subrange, slice_to_vec};

verus! {

/// Smallest unit the flash controller can erase, in bytes.
pub const PAGE_SIZE_BYTES: u32 = 1024;

/// Largest number of 32-bit words one hardware write chunk can carry.
pub const PAGE_LENGTH_WORDS: usize = 32;

/// Value every byte of a page holds after an erase.
pub const BLANK_BYTE: u8 = 0xFF;

/// How many hardware write chunks a write of `words` 32-bit words takes:
/// the ceiling of `words / PAGE_LENGTH_WORDS`.
pub open spec fn chunks_for(words: nat) -> nat
    decreases words,
{
    if words == 0 {
        0
    } else if words <= PAGE_LENGTH_WORDS {
        1
    } else {
        1 + chunks_for((words - PAGE_LENGTH_WORDS) as nat)
    }
}

/// Convert four little-endian bytes to a 32-bit word.
pub fn pack_le(data: &[u8]) -> (r: u32)
    requires
        data@.len() >= 4,
    ensures
        r == spec_u32_from_le_bytes(data@.subrange(0, 4)),
{
    let four = slice_subrange(data, 0, 4);
    u32_from_le_bytes(four)
}

/// The chunk count is the ceiling of the word count over
/// `PAGE_LENGTH_WORDS`, in one formula: every write takes one hardware
/// chunk per `PAGE_LENGTH_WORDS` words and one more for any words left
/// over.
pub proof fn lemma_chunks_for_is_ceiling(words: nat)
    ensures
        chunks_for(words) == (words + PAGE_LENGTH_WORDS - 1) / (PAGE_LENGTH_WORDS as int),
    decreases words,
{
    if words == 0 {
        lemma_basic_div(PAGE_LENGTH_WORDS - 1, PAGE_LENGTH_WORDS as int);
    } else if words <= PAGE_LENGTH_WORDS {
        lemma_basic_div(words - 1, PAGE_LENGTH_WORDS as int);
        lemma_div_plus_one(words - 1, PAGE_LENGTH_WORDS as int);
    } else {
        lemma_chunks_for_is_ceiling((words - PAGE_LENGTH_WORDS) as nat);
        lemma_div_plus_one(words - 1 - PAGE_LENGTH_WORDS, PAGE_LENGTH_WORDS as int);
    }
}

/// A write never takes more chunks than it has words.
proof fn lemma_chunks_for_le(words: nat)
    ensures
        chunks_for(words) <= words,
    decreases words,
{
    if words > PAGE_LENGTH_WORDS {
        lemma_chunks_for_le((words - PAGE_LENGTH_WORDS) as nat);
    }
}

/// In `4 * j + k` with `0 <= k < 4`, division by four recovers `j` and `k`.
proof fn lemma_div4(j: int, k: int)
    requires
        0 <= k < 4,
    ensures
        (4 * j + k) / 4 == j,
        (4 * j + k) % 4 == k,
{
    lemma_fundamental_div_mod_converse(4 * j + k, 4, j, k);
}

/// Why the engine refused a flash operation.
#[derive(Clone, Copy, PartialEq, Eq, Structural, Debug)]
pub enum FlashError {
    /// The address is misaligned or the range leaves the writable region.
    InvalidAddress,
    /// The byte count is not a whole number of 32-bit words.
    BadLength,
}

/// The flash programming engine: a bounds-checked window onto the device's
/// flash address space.
///
/// `base` is the first modelled address; `data` holds one byte per modelled
/// address; `write_base` is the first address that erase and write operations
/// may touch (everything below it belongs to the bootloader's own image and
/// is read-only for the engine).
pub struct Flash {
    base: u32,
    write_base: u32,
    data: Vec<u8>,
    chunk_writes: Ghost<nat>,
}

impl Flash {
    /// First modelled flash address.
    pub closed spec fn start(self) -> int {
        self.base as int
    }

    /// One past the last modelled flash address.
    pub closed spec fn end(self) -> int {
        self.base + self.data@.len()
    }

    /// First address that erase and write operations may touch.
    pub closed spec fn writable_start(self) -> int {
        self.write_base as int
    }

    /// The flash contents, indexed by offset from `start()`.
    pub closed spec fn mem(self) -> Seq<u8> {
        self.data@
    }

    /// How many hardware write chunks have been issued so far.
    pub closed spec fn chunks_issued(self) -> nat {
        self.chunk_writes@
    }

    /// The byte stored at absolute address `addr`.
    pub open spec fn byte_at(self, addr: int) -> u8 {
        self.mem()[addr - self.start()]
    }

    /// The `len` bytes stored from absolute address `addr` on.
    pub open spec fn window(self, addr: int, len: int) -> Seq<u8> {
        self.mem().subrange(addr - self.start(), addr - self.start() + len)
    }

    /// The region is coherent: it fits the 32-bit address space and the
    /// writable part lies inside it.
    pub closed spec fn wf(self) -> bool {
        &&& self.base + self.data@.len() <= 0x1_0000_0000
        &&& self.base <= self.write_base
        &&& self.write_base <= self.base + self.data@.len()
    }

    /// The whole range `[addr, addr + len)` lies in modelled flash.
    pub open spec fn readable(self, addr: int, len: int) -> bool {
        self.start() <= addr && addr + len <= self.end()
    }

    /// A page erase at `addr` is allowed: page-aligned, and the page lies
    /// wholly inside the writable region.
    pub open spec fn erasable(self, addr: int) -> bool {
        &&& addr % (PAGE_SIZE_BYTES as int) == 0
        &&& self.writable_start() <= addr
        &&& addr + PAGE_SIZE_BYTES <= self.end()
    }

    /// A write of `len` bytes at `addr` is allowed: word-aligned, and the
    /// range lies wholly inside the writable region. An empty write touches
    /// nothing and is always allowed.
    pub open spec fn writable(self, addr: int, len: int) -> bool {
        ||| len == 0
        ||| (addr % 4 == 0 && self.writable_start() <= addr && addr + len <= self.end())
    }

    /// The engine's bounds: everything but the contents and the chunk count.
    pub open spec fn same_region(self, other: Flash) -> bool {
        &&& self.start() == other.start()
        &&& self.end() == other.end()
        &&& self.writable_start() == other.writable_start()
    }

    /// Nothing moved: same bounds, same contents, same chunk count.
    pub open spec fn same_state(self, other: Flash) -> bool {
        &&& self.same_region(other)
        &&& self.mem() == other.mem()
        &&& self.chunks_issued() == other.chunks_issued()
    }

    /// `self` is `pre` with the page at `addr` erased to the blank value.
    pub open spec fn erased_from(self, pre: Flash, addr: int) -> bool {
        &&& self.same_region(pre)
        &&& self.mem().len() == pre.mem().len()
        &&& self.chunks_issued() == pre.chunks_issued()
        &&& forall|a: int|
            pre.start() <= a < pre.end() ==> self.byte_at(a) == (
            if addr <= a < addr + PAGE_SIZE_BYTES {
                BLANK_BYTE
            } else {
                pre.byte_at(a)
            })
    }

    /// `self` is `pre` with `data` written at `addr`, after exactly the
    /// hardware write chunks that takes.
    pub open spec fn written_from(self, pre: Flash, addr: int, data: Seq<u8>) -> bool {
        &&& self.same_region(pre)
        &&& self.mem().len() == pre.mem().len()
        &&& self.chunks_issued() == pre.chunks_issued() + chunks_for((data.len() / 4) as nat)
        &&& forall|a: int|
            pre.start() <= a < pre.end() ==> self.byte_at(a) == (
            if addr <= a < addr + data.len() {
                data[a - addr]
            } else {
                pre.byte_at(a)
            })
    }

    /// Whether the whole range `[address, address + length)` lies in
    /// modelled flash, decided at run time.
    pub fn is_readable(&self, address: u32, length: u32) -> (b: bool)
        ensures
            b == self.readable(address as int, length as int),
    {
        address >= self.base && (address - self.base) as u64 + length as u64
            <= self.data.len() as u64
    }

    /// Build an engine whose flash is all blank, as fresh hardware is.
    pub fn new(base: u32, write_base: u32, size: u32) -> (r: Flash)
        requires
            base + size <= 0x1_0000_0000,
            base <= write_base,
            write_base <= base + size,
        ensures
            r.wf(),
            r.start() == base,
            r.end() == base + size,
            r.writable_start() == write_base,
            r.mem() == Seq::new(size as nat, |i: int| BLANK_BYTE),
            forall|a: int| base <= a < base + size ==> r.byte_at(a) == BLANK_BYTE,
            r.chunks_issued() == 0,
    {
        let mut data: Vec<u8> = Vec::new();
        let mut i: u32 = 0;
        while i < size
            invariant
                i <= size,
                data@.len() == i,
                forall|j: int| 0 <= j < i ==> data@[j] == BLANK_BYTE,
            decreases size - i,
        {
            data.push(BLANK_BYTE);
            i = i + 1;
        }
        Flash { base, write_base, data, chunk_writes: Ghost(0) }
    }

    /// Erase exactly the page starting at `address` to the blank value.
    ///
    /// The address must be page-aligned (a misaligned address is rejected,
    /// never silently aligned down) and the page must lie inside the
    /// writable region.
    pub fn erase_page(&mut self, address: u32) -> (r: Result<(), FlashError>)
        requires
            old(self).wf(),
        ensures
            final(self).wf(),
            final(self).same_region(*old(self)),
            r is Ok <==> old(self).erasable(address as int),
            r is Ok ==> final(self).erased_from(*old(self), address as int),
            r is Err ==> r == Err::<(), FlashError>(FlashError::InvalidAddress)
                && final(self).same_state(*old(self)),
    {
        if address % PAGE_SIZE_BYTES != 0 {
            return Err(FlashError::InvalidAddress);
        }
        if address < self.write_base {
            return Err(FlashError::InvalidAddress);
        }
        let end = self.base as u64 + self.data.len() as u64;
        if address as u64 + PAGE_SIZE_BYTES as u64 > end {
            return Err(FlashError::InvalidAddress);
        }
        let offset = (address - self.base) as usize;
        let mut j: usize = 0;
        while j < PAGE_SIZE_BYTES as usize
            invariant
                j <= PAGE_SIZE_BYTES,
                self.wf(),
                self.same_region(*old(self)),
                self.chunks_issued() == old(self).chunks_issued(),
                self.mem().len() == old(self).mem().len(),
                offset == address - old(self).start(),
                offset + PAGE_SIZE_BYTES <= self.mem().len(),
                forall|i: int| 0 <= i < self.mem().len() ==> self.mem()[i] == (
                    if offset <= i < offset + j { BLANK_BYTE } else { old(self).mem()[i] }),
            decreases PAGE_SIZE_BYTES - j,
        {
            self.data.set(offset + j, BLANK_BYTE);
            j = j + 1;
        }
        Ok(())
    }

    /// One hardware write chunk: up to `PAGE_LENGTH_WORDS` words stored
    /// little-endian at a word-aligned address inside the writable region.
    /// Models the flash controller's buffered write; the caller has already
    /// validated the range.
    fn write_chunk(&mut self, address: u32, words: &Vec<u32>)
        requires
            old(self).wf(),
            0 < words@.len() <= PAGE_LENGTH_WORDS,
            address % 4 == 0,
            old(self).writable_start() <= address,
            address + 4 * words@.len() <= old(self).end(),
        ensures
            final(self).wf(),
            final(self).same_region(*old(self)),
            final(self).mem().len() == old(self).mem().len(),
            final(self).chunks_issued() == old(self).chunks_issued() + 1,
            forall|a: int|
                old(self).start() <= a < old(self).end() ==> final(self).byte_at(a) == (
                if address <= a < address + 4 * words@.len() {
                    spec_u32_to_le_bytes(words@[(a - address) / 4])[(a - address) % 4]
                } else {
                    old(self).byte_at(a)
                }),
    {
        let offset = (address - self.base) as usize;
        let mut j: usize = 0;
        while j < words.len()
            invariant
                j <= words@.len(),
                0 < words@.len() <= PAGE_LENGTH_WORDS,
                self.wf(),
                self.same_region(*old(self)),
                self.chunks_issued() == old(self).chunks_issued(),
                self.mem().len() == old(self).mem().len(),
                offset == address - old(self).start(),
                offset + 4 * words@.len() <= self.mem().len(),
                forall|i: int|
                    0 <= i < self.mem().len() ==> self.mem()[i] == (
                    if offset <= i < offset + 4 * j {
                        spec_u32_to_le_bytes(words@[(i - offset) / 4])[(i - offset) % 4]
                    } else {
                        old(self).mem()[i]
                    }),
            decreases words@.len() - j,
        {
            let bytes = u32_to_le_bytes(words[j]);
            self.data.set(offset + 4 * j, bytes[0]);
            self.data.set(offset + 4 * j + 1, bytes[1]);
            self.data.set(offset + 4 * j + 2, bytes[2]);
            self.data.set(offset + 4 * j + 3, bytes[3]);
            proof {
                assert forall|i: int| offset <= i < offset + 4 * (j + 1) implies self.mem()[i]
                    == spec_u32_to_le_bytes(words@[(i - offset) / 4])[(i - offset) % 4] by {
                    let q = (i - offset) / 4;
                    let k = (i - offset) % 4;
                    lemma_div4((i - offset) / 4, (i - offset) % 4);
                    if i < offset + 4 * j {
                        lemma_div4(q, k);
                    } else {
                        lemma_div4(j as int, i - offset - 4 * j);
                    }
                }
            }
            j = j + 1;
        }
        proof {
            self.chunk_writes@ = self.chunk_writes@ + 1;
        }
    }

    /// Write `data` starting at `address`, one hardware chunk at a time.
    ///
    /// The buffer must be a whole number of little-endian 32-bit words, and
    /// the whole range must lie inside the writable region; both are checked
    /// before any hardware write is issued, so a rejected request changes
    /// nothing. On success the result is the number of hardware write
    /// chunks issued, the ceiling of the word count over
    /// `PAGE_LENGTH_WORDS`; the last chunk carries exactly the words that
    /// remain.
    pub fn write_page(&mut self, address: u32, data: &[u8]) -> (r: Result<
        usize,
        FlashError,
    >)
        requires
            old(self).wf(),
        ensures
            final(self).wf(),
            final(self).same_region(*old(self)),
            data@.len() % 4 != 0 ==> r == Err::<usize, FlashError>(FlashError::BadLength),
            data@.len() % 4 == 0 ==> (r is Ok <==> old(self).writable(
                address as int,
                data@.len() as int,
            )),
            r is Err ==> final(self).same_state(*old(self)),
            r matches Ok(c) ==> c == chunks_for((data@.len() / 4) as nat)
                && final(self).written_from(*old(self), address as int, data@),
    {
        let n = data.len();
        if n % 4 != 0 {
            return Err(FlashError::BadLength);
        }
        if n == 0 {
            return Ok(0);
        }
        if address % 4 != 0 {
            return Err(FlashError::InvalidAddress);
        }
        if address < self.write_base {
            return Err(FlashError::InvalidAddress);
        }
        if n > self.data.len() {
            return Err(FlashError::InvalidAddress);
        }
        let end = self.base as u64 + self.data.len() as u64;
        if address as u64 + n as u64 > end {
            return Err(FlashError::InvalidAddress);
        }
        proof {
            lemma_auto_spec_u32_to_from_le_bytes();
            lemma_chunks_for_le((n / 4) as nat);
        }
        let total_words = n / 4;
        let mut offset: usize = 0;
        let mut remaining_words: usize = total_words;
        let mut chunks: usize = 0;
        while remaining_words > 0
            invariant
                self.wf(),
                self.same_region(*old(self)),
                self.mem().len() == old(self).mem().len(),
                n == data@.len(),
                n % 4 == 0,
                total_words == n / 4,
                remaining_words <= total_words,
                offset == 4 * (total_words - remaining_words),
                chunks + chunks_for(remaining_words as nat) == chunks_for(total_words as nat),
                chunks_for(total_words as nat) <= total_words,
                self.chunks_issued() == old(self).chunks_issued() + chunks,
                address % 4 == 0,
                old(self).writable_start() <= address,
                address + n <= old(self).end(),
                forall|a: int|
                    old(self).start() <= a < old(self).end() ==> self.byte_at(a) == (
                    if address <= a < address + offset {
                        data@[a - address]
                    } else {
                        old(self).byte_at(a)
                    }),
            decreases remaining_words,
        {
            let this_time = if remaining_words > PAGE_LENGTH_WORDS {
                PAGE_LENGTH_WORDS
            } else {
                remaining_words
            };
            let mut words: Vec<u32> = Vec::new();
            let mut w: usize = 0;
            while w < this_time
                invariant
                    w <= this_time,
                    words@.len() == w,
                    n == data@.len(),
                    offset + 4 * this_time <= n,
                    forall|j: int|
                        0 <= j < w ==> words@[j] == spec_u32_from_le_bytes(
                            data@.subrange(offset + 4 * j, offset + 4 * j + 4),
                        ),
                decreases this_time - w,
            {
                let four = slice_subrange(data, offset + 4 * w, offset + 4 * w + 4);
                let word = pack_le(four);
                proof {
                    assert(four@.subrange(0, 4) =~= data@.subrange(
                        offset + 4 * w,
                        offset + 4 * w + 4,
                    ));
                }
                words.push(word);
                w = w + 1;
            }
            let cur = address + (offset as u32);
            self.write_chunk(cur, &words);
            proof {
                lemma_auto_spec_u32_to_from_le_bytes();
                assert forall|a: int| cur <= a < cur + 4 * this_time implies self.byte_at(a)
                    == data@[a - address] by {
                    let q = (a - cur) / 4;
                    let k = (a - cur) % 4;
                    lemma_div4(q, k);
                    assert(words@[q] == spec_u32_from_le_bytes(
                        data@.subrange(offset + 4 * q, offset + 4 * q + 4),
                    ));
                    assert(spec_u32_to_le_bytes(words@[q]) =~= data@.subrange(
                        offset + 4 * q,
                        offset + 4 * q + 4,
                    ));
                }
            }
            offset = offset + this_time * 4;
            remaining_words = remaining_words - this_time;
            chunks = chunks + 1;
        }
        Ok(chunks)
    }

    /// Return a copy of the `length` bytes starting at `address`.
    ///
    /// The caller is responsible for asking only for mapped flash, as the
    /// protocol documents; the range check is a precondition here and the
    /// dispatcher enforces it before calling.
    pub fn read_range(&self, address: u32, length: u16) -> (r: Vec<u8>)
        requires
            self.wf(),
            self.readable(address as int, length as int),
        ensures
            r@ == self.window(address as int, length as int),
    {
        let total = self.data.len();
        let offset = (address - self.base) as usize;
        let s = slice_subrange(self.data.as_slice(), offset, offset + length as usize);
        slice_to_vec(s)
    }

    /// The IEEE CRC-32, in the host tool's variant, of the `length` bytes
    /// starting at `address`. As with `read_range`, the caller keeps the
    /// range inside mapped flash.
    pub fn checksum(&self, address: u32, length: u32) -> (r: u32)
        requires
            self.wf(),
            self.readable(address as int, length as int),
        ensures
            r == crc32_ieee_of(self.window(address as int, length as int)),
            length == 0 ==> r == 0,
    {
        let total = self.data.len();
        let offset = (address - self.base) as usize;
        let s = slice_subrange(self.data.as_slice(), offset, offset + length as usize);
        crc32_ieee(s)
    }
}

} // verus!
