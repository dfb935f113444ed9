//! The two redundant save slots, and the choice of which one is current.
use crate::sector::{get_save_index, sector_by_id, save_index_at, IMAGE_SIZE};
use crate::DecodeError;
use vstd::prelude::*;

verus! {

/// Sectors in one save slot.
pub const SLOT_SECTORS: u8 = 14;

/// Sectors whose save index the resolution reads: the first 27, up to and
/// including the second-to-last sector of slot B.
pub const SCANNED_SECTORS: usize = 27;

/// One of the two redundant save slots. Slot A holds sectors 0 to 13, slot B
/// sectors 14 to 27.
#[derive(Clone, Copy, Debug, PartialEq, Eq, Structural)]
pub enum SaveSlot {
    A,
    B,
}

/// Global sector index of the slot-relative sector `sector_id`.
pub open spec fn spec_sector_offset(slot: SaveSlot, sector_id: u8) -> int {
    match slot {
        SaveSlot::A => sector_id as int,
        SaveSlot::B => sector_id + SLOT_SECTORS,
    }
}

impl SaveSlot {
    /// Global sector index of the slot-relative sector `sector_id`.
    pub fn sector_offset(&self, sector_id: u8) -> (r: u8)
        requires
            *self is B ==> sector_id + SLOT_SECTORS <= u8::MAX,
        ensures
            r == spec_sector_offset(*self, sector_id),
    {
        match self {
            SaveSlot::A => sector_id,
            SaveSlot::B => sector_id + SLOT_SECTORS,
        }
    }
}

/// Which slot wins when slot A's boundary version is `a` and slot B's is `b`:
/// equal versions decide nothing; otherwise A is newer when B is smaller and
/// A has not reached the largest value, and B is newer in every other case
/// (B greater, or A at the largest value, where the counter wraps).
pub open spec fn newer_slot(a: u32, b: u32) -> Option<SaveSlot> {
    if a == b {
        None
    } else if a != u32::MAX && b < a {
        Some(SaveSlot::A)
    } else {
        Some(SaveSlot::B)
    }
}

/// Every scanned sector of slot A carries the version of sector 0, and every
/// scanned sector of slot B that of sector 14.
pub open spec fn versions_consistent(v: Seq<u32>) -> bool {
    &&& forall|i: int| 1 <= i < 14 ==> #[trigger] v[i] == v[0]
    &&& forall|i: int| 15 <= i < 27 ==> #[trigger] v[i] == v[14]
}

/// The slot that the sector versions `v` (version of sector `i` at `v[i]`)
/// designate, or `None` when they are inconsistent or ambiguous.
pub open spec fn resolve(v: Seq<u32>) -> Option<SaveSlot> {
    if versions_consistent(v) {
        newer_slot(v[0], v[14])
    } else {
        None
    }
}

/// The versions of the scanned sectors of `img`.
pub open spec fn image_versions(img: Seq<u8>) -> Seq<u32> {
    Seq::new(SCANNED_SECTORS as nat, |i: int| save_index_at(img, i))
}

/// Resolution as a result: a slot, or a format violation.
pub open spec fn resolve_result(v: Seq<u32>) -> Result<SaveSlot, DecodeError> {
    match resolve(v) {
        Some(slot) => Ok(slot),
        None => Err(DecodeError::FormatViolation),
    }
}

/// Decides the current slot from the versions of the scanned sectors
/// (`versions[i]` is the save index of sector `i`; entries past the scanned
/// ones are not read).
pub fn slot_from_versions(versions: &[u32]) -> (r: Result<SaveSlot, DecodeError>)
    requires
        versions@.len() >= SCANNED_SECTORS,
    ensures
        r == resolve_result(versions@),
{
    let ghost v = versions@;
    let mut save_index: u32 = versions[0];
    let mut save_slot: Option<SaveSlot> = None;
    let mut sector_id: usize = 0;
    while sector_id < SCANNED_SECTORS
        invariant
            v == versions@,
            v.len() >= SCANNED_SECTORS,
            sector_id <= SCANNED_SECTORS,
            sector_id <= 14 ==> save_index == v[0] && save_slot is None,
            sector_id > 14 ==> save_index == v[14] && save_slot == newer_slot(v[0], v[14])
                && save_slot is Some,
            forall|i: int| 1 <= i < 14 && i < sector_id ==> #[trigger] v[i] == v[0],
            forall|i: int| 15 <= i < sector_id ==> #[trigger] v[i] == v[14],
        decreases SCANNED_SECTORS - sector_id,
    {
        let retrieved_index = versions[sector_id];
        if sector_id == 14 {
            if retrieved_index == save_index {
                return Err(DecodeError::FormatViolation);
            } else if save_index != u32::MAX && retrieved_index < save_index {
                save_slot = Some(SaveSlot::A);
            } else {
                save_slot = Some(SaveSlot::B);
            }
            save_index = retrieved_index;
        } else if sector_id != 0 && save_index != retrieved_index {
            return Err(DecodeError::FormatViolation);
        }
        sector_id = sector_id + 1;
    }
    match save_slot {
        Some(slot) => Ok(slot),
        None => Err(DecodeError::FormatViolation),
    }
}

/// Decides the current slot of a save image from its sectors' save indices.
pub fn slot_from_buffer(buffer: &[u8; 0x20000]) -> (r: Result<SaveSlot, DecodeError>)
    ensures
        r == resolve_result(image_versions(buffer@)),
{
    let image: &[u8] = buffer.as_slice();
    let mut versions: Vec<u32> = Vec::new();
    let mut sector_id: u8 = 0;
    while (sector_id as usize) < SCANNED_SECTORS
        invariant
            image@ == buffer@,
            image@.len() == IMAGE_SIZE,
            sector_id <= SCANNED_SECTORS,
            versions@.len() == sector_id,
            forall|i: int| 0 <= i < sector_id ==> versions@[i] == save_index_at(image@, i),
        decreases SCANNED_SECTORS - sector_id,
    {
        let sector = sector_by_id(sector_id, image);
        versions.push(get_save_index(sector));
        sector_id = sector_id + 1;
    }
    assert(versions@ =~= image_versions(buffer@));
    slot_from_versions(versions.as_slice())
}

/// When every sector of slot A carries version `v` and every sector of slot B
/// carries `v + 1`, with `v` below the largest value, slot B is current.
pub proof fn lemma_successor_in_b_wins(img: Seq<u8>, v: u32)
    requires
        img.len() == IMAGE_SIZE,
        v < u32::MAX,
        forall|i: int| 0 <= i < 14 ==> #[trigger] save_index_at(img, i) == v,
        forall|i: int| 14 <= i < 28 ==> #[trigger] save_index_at(img, i) == v + 1,
    ensures
        resolve_result(image_versions(img)) == Ok::<SaveSlot, DecodeError>(SaveSlot::B),
{
    let vs = image_versions(img);
    assert(vs[0] == v && vs[14] == v + 1);
    assert(versions_consistent(vs));
}

/// When every sector of slot A carries version `v` and every sector of slot B
/// carries `v - 1`, slot A is current. (With `v` the largest value the
/// wraparound rule makes slot B current instead.)
pub proof fn lemma_predecessor_in_b_loses(img: Seq<u8>, v: u32)
    requires
        img.len() == IMAGE_SIZE,
        0 < v < u32::MAX,
        forall|i: int| 0 <= i < 14 ==> #[trigger] save_index_at(img, i) == v,
        forall|i: int| 14 <= i < 28 ==> #[trigger] save_index_at(img, i) == v - 1,
    ensures
        resolve_result(image_versions(img)) == Ok::<SaveSlot, DecodeError>(SaveSlot::A),
{
    let vs = image_versions(img);
    assert(vs[0] == v && vs[14] == v - 1);
    assert(versions_consistent(vs));
}

/// When both slots carry the same version, no slot is current and resolution
/// reports a format violation.
pub proof fn lemma_equal_versions_rejected(img: Seq<u8>)
    requires
        img.len() == IMAGE_SIZE,
        save_index_at(img, 0) == save_index_at(img, 14),
    ensures
        resolve_result(image_versions(img)) == Err::<SaveSlot, DecodeError>(
            DecodeError::FormatViolation,
        ),
{
    let vs = image_versions(img);
    assert(vs[0] == save_index_at(img, 0) && vs[14] == save_index_at(img, 14));
}

/// When a scanned sector other than the two slot boundaries (sectors 0 and 14)
/// carries a version other than its slot's, resolution reports a format
/// violation.
pub proof fn lemma_stray_version_rejected(img: Seq<u8>, sector: int)
    requires
        img.len() == IMAGE_SIZE,
        (1 <= sector < 14 && save_index_at(img, sector) != save_index_at(img, 0)) || (15 <= sector
            < SCANNED_SECTORS && save_index_at(img, sector) != save_index_at(img, 14)),
    ensures
        resolve_result(image_versions(img)) == Err::<SaveSlot, DecodeError>(
            DecodeError::FormatViolation,
        ),
{
    let vs = image_versions(img);
    assert(vs[0] == save_index_at(img, 0) && vs[14] == save_index_at(img, 14));
    assert(vs[sector] == save_index_at(img, sector));
    assert(!versions_consistent(vs));
}

/// When slot A's counter has reached the largest value and slot B carries 0,
/// the counter has wrapped and slot B is current.
pub proof fn lemma_wrapped_counter_in_b_wins(img: Seq<u8>)
    requires
        img.len() == IMAGE_SIZE,
        forall|i: int| 0 <= i < 14 ==> #[trigger] save_index_at(img, i) == u32::MAX,
        forall|i: int| 14 <= i < 28 ==> #[trigger] save_index_at(img, i) == 0,
    ensures
        resolve_result(image_versions(img)) == Ok::<SaveSlot, DecodeError>(SaveSlot::B),
{
    let vs = image_versions(img);
    assert(vs[0] == u32::MAX && vs[14] == 0);
    assert(versions_consistent(vs));
}

} // verus!
