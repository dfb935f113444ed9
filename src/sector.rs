//! Fixed-size sectors of a save image and the save index each one carries.
use crate::bytes::{le_u32, read_u32_le};
use vstd::prelude::*;
use vstd::slice::slice_subrange;

verus! {

/// Bytes in one sector.
pub const SECTOR_SIZE: usize = 0x1000;

/// Sectors in one save image.
pub const SECTOR_COUNT: usize = 32;

/// Bytes in one save image.
pub const IMAGE_SIZE: usize = 0x20000;

/// Offset, within a sector, of its little-endian 32-bit save index.
pub const SAVE_INDEX_OFFSET: usize = 0xFFC;

/// The bytes of sector `id` of `img`.
pub open spec fn sector_bytes(img: Seq<u8>, id: int) -> Seq<u8> {
    img.subrange(id * SECTOR_SIZE as int, (id + 1) * SECTOR_SIZE as int)
}

/// The save index that a sector's bytes carry.
pub open spec fn save_index_of(sec: Seq<u8>) -> u32 {
    le_u32(sec, SAVE_INDEX_OFFSET as int)
}

/// The save index carried by sector `id` of `img`.
pub open spec fn save_index_at(img: Seq<u8>, id: int) -> u32 {
    save_index_of(sector_bytes(img, id))
}

/// Returns sector `sector_id` of `buffer`: the bytes
/// `[sector_id * 4096, sector_id * 4096 + 4096)`.
pub fn sector_by_id(sector_id: u8, buffer: &[u8]) -> (r: &[u8])
    requires
        sector_id < SECTOR_COUNT,
        (sector_id as int + 1) * SECTOR_SIZE <= buffer@.len(),
    ensures
        r@ == sector_bytes(buffer@, sector_id as int),
        r@.len() == SECTOR_SIZE,
{
    let offset: usize = sector_id as usize * SECTOR_SIZE;
    slice_subrange(buffer, offset, offset + SECTOR_SIZE)
}

/// Reads the save index of a sector.
pub fn get_save_index(sector: &[u8]) -> (r: u32)
    requires
        sector@.len() >= SECTOR_SIZE,
    ensures
        r == save_index_of(sector@),
{
    let tail = slice_subrange(sector, SAVE_INDEX_OFFSET, SECTOR_SIZE);
    read_u32_le(tail)
}

} // verus!
