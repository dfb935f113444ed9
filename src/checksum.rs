//! Per-sector checksums of a save image.
//!
//! Each sector keeps its data in the bytes before `CHECKSUM_DATA_SIZE` and
//! stores, at `CHECKSUM_OFFSET`, the sum of that data read as little-endian
//! 16-bit words, wrapping at 2^16.
//!
//! The bytes from `CHECKSUM_DATA_SIZE` on are the sector's footer: its section
//! ID (0xFF4), the checksum itself (0xFF6), a signature (0xFF8) and the save
//! index (0xFFC). The footer describes the sector rather than holding its data,
//! and the save index is checked on its own by slot resolution, so the
//! checksum covers the data area alone.
use crate::bytes::{le_u16, read_u16_le};
use crate::sector::{sector_by_id, sector_bytes, IMAGE_SIZE, SECTOR_COUNT, SECTOR_SIZE};
use vstd::arithmetic::div_mod::lemma_add_mod_noop;
use vstd::prelude::*;
use vstd::slice::slice_subrange;

verus! {

/// Bytes of a sector that its checksum covers, from its start.
pub const CHECKSUM_DATA_SIZE: usize = 0xFF4;

/// Offset, within a sector, of its stored little-endian 16-bit checksum.
pub const CHECKSUM_OFFSET: usize = 0xFF6;

/// Sum of the first `n` little-endian 16-bit words of `s`.
pub open spec fn word_sum(s: Seq<u8>, n: nat) -> nat
    decreases n,
{
    if n == 0 {
        0
    } else {
        word_sum(s, (n - 1) as nat) + le_u16(s, 2 * (n - 1)) as nat
    }
}

/// The checksum that a sector's data calls for.
pub open spec fn computed_checksum(sec: Seq<u8>) -> u16 {
    (word_sum(sec, (CHECKSUM_DATA_SIZE / 2) as nat) % 0x1_0000) as u16
}

/// The checksum stored in a sector.
pub open spec fn stored_checksum(sec: Seq<u8>) -> u16 {
    le_u16(sec, CHECKSUM_OFFSET as int)
}

/// A sector whose stored checksum matches its data.
pub open spec fn sector_checksum_ok(sec: Seq<u8>) -> bool {
    stored_checksum(sec) == computed_checksum(sec)
}

/// Every sector of `img` holds a matching checksum.
pub open spec fn checksums_ok(img: Seq<u8>) -> bool {
    forall|i: int| 0 <= i < SECTOR_COUNT ==> #[trigger] sector_checksum_ok(sector_bytes(img, i))
}

/// Computes the checksum of a sector's data.
pub fn sector_checksum(sector: &[u8]) -> (r: u16)
    requires
        sector@.len() == SECTOR_SIZE,
    ensures
        r == computed_checksum(sector@),
{
    let mut sum: u32 = 0;
    let mut word: usize = 0;
    while word < CHECKSUM_DATA_SIZE / 2
        invariant
            sector@.len() == SECTOR_SIZE,
            word <= CHECKSUM_DATA_SIZE / 2,
            sum == word_sum(sector@, word as nat) % 0x1_0000,
        decreases CHECKSUM_DATA_SIZE / 2 - word,
    {
        let w = read_u16_le(slice_subrange(sector, 2 * word, 2 * word + 2));
        proof {
            lemma_add_mod_noop(word_sum(sector@, word as nat) as int, w as int, 0x1_0000);
        }
        sum = (sum + w as u32) % 0x1_0000;
        word = word + 1;
    }
    sum as u16
}

/// Whether every sector of the image holds a matching checksum.
pub fn is_valid_checksum(buffer: &[u8; 0x20000]) -> (r: bool)
    ensures
        r == checksums_ok(buffer@),
{
    let image: &[u8] = buffer.as_slice();
    let mut sector_id: u8 = 0;
    while (sector_id as usize) < SECTOR_COUNT
        invariant
            image@ == buffer@,
            image@.len() == IMAGE_SIZE,
            sector_id <= SECTOR_COUNT,
            forall|i: int| 0 <= i < sector_id ==> #[trigger] sector_checksum_ok(sector_bytes(image@, i)),
        decreases SECTOR_COUNT - sector_id,
    {
        let sector = sector_by_id(sector_id, image);
        let stored = read_u16_le(slice_subrange(sector, CHECKSUM_OFFSET, CHECKSUM_OFFSET + 2));
        if stored != sector_checksum(sector) {
            assert(!sector_checksum_ok(sector_bytes(buffer@, sector_id as int)));
            return false;
        }
        sector_id = sector_id + 1;
    }
    true
}

/// How much the byte at `pos` weighs in the little-endian word holding it.
pub open spec fn byte_weight(pos: int) -> int {
    if pos % 2 == 0 {
        1
    } else {
        0x100
    }
}

/// Changing the byte at `pos` to `b` moves the sum of the first `n` words by
/// that byte's weight times the change, when the byte lies in those words.
proof fn lemma_word_sum_update(s: Seq<u8>, pos: int, b: u8, n: nat)
    requires
        0 <= pos < s.len(),
        2 * n <= s.len(),
    ensures
        word_sum(s.update(pos, b), n) == word_sum(s, n) + (if pos < 2 * n {
            byte_weight(pos) * (b - s[pos])
        } else {
            0
        }),
    decreases n,
{
    if n > 0 {
        let t = s.update(pos, b);
        let k = 2 * (n - 1);
        lemma_word_sum_update(s, pos, b, (n - 1) as nat);
        if pos == k {
            assert(le_u16(t, k) == le_u16(s, k) + (b - s[pos]));
        } else if pos == k + 1 {
            assert(le_u16(t, k) == le_u16(s, k) + 0x100 * (b - s[pos]));
        } else {
            assert(t[k] == s[k] && t[k + 1] == s[k + 1]);
        }
    }
}

/// In an image whose checksums all match, changing one byte of a sector's
/// checksummed data makes the image fail validation.
pub proof fn lemma_changed_byte_detected(img: Seq<u8>, sector: int, pos: int, b: u8)
    requires
        img.len() == IMAGE_SIZE,
        checksums_ok(img),
        0 <= sector < SECTOR_COUNT,
        0 <= pos < CHECKSUM_DATA_SIZE,
        img[sector * SECTOR_SIZE + pos] != b,
    ensures
        !checksums_ok(img.update(sector * SECTOR_SIZE + pos, b)),
{
    let changed = img.update(sector * SECTOR_SIZE + pos, b);
    let old_sec = sector_bytes(img, sector);
    let new_sec = sector_bytes(changed, sector);
    assert(new_sec =~= old_sec.update(pos, b));
    assert(sector_checksum_ok(old_sec));
    let n = (CHECKSUM_DATA_SIZE / 2) as nat;
    lemma_word_sum_update(old_sec, pos, b, n);
    let delta = byte_weight(pos) * (b - old_sec[pos]);
    assert(delta != 0 && -0x1_0000 < delta < 0x1_0000) by (nonlinear_arith)
        requires
            delta == byte_weight(pos) * (b - old_sec[pos]),
            byte_weight(pos) == 1 || byte_weight(pos) == 0x100,
            b != old_sec[pos],
            0 <= b < 0x100,
            0 <= old_sec[pos] < 0x100,
    ;
    let before = word_sum(old_sec, n) as int;
    assert((before + delta) % 0x1_0000 != before % 0x1_0000) by (nonlinear_arith)
        requires
            delta != 0,
            -0x1_0000 < delta < 0x1_0000,
            before >= 0,
            before + delta >= 0,
    ;
    assert(stored_checksum(new_sec) == stored_checksum(old_sec));
    assert(!sector_checksum_ok(new_sec));
}

} // verus!
