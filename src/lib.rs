//! Reader for third-generation handheld save-memory images: finds which of the
//! two redundant save slots is current and decodes the trainer identifier.
use vstd::prelude::*;

pub mod bytes;
pub mod checksum;
pub mod sector;
pub mod slot;
pub mod trainer;

use crate::checksum::{checksums_ok, is_valid_checksum};
use crate::sector::{sector_by_id, sector_bytes};
use crate::slot::{image_versions, resolve, slot_from_buffer, spec_sector_offset, SaveSlot};
use crate::trainer::{trainer_of, TrainerID, TRAINER_SECTOR};

verus! {

/// Why a save image could not be decoded.
#[derive(Clone, Copy, Debug, PartialEq, Eq, Structural)]
pub enum DecodeError {
    /// The sectors' save indices form no consistent pattern, or both slots
    /// carry the same version.
    FormatViolation,
    /// A sector's stored checksum does not match its contents.
    ChecksumFailure,
}

/// What a save image holds: its current slot and the trainer identifier.
#[derive(Clone, Copy, Debug, PartialEq, Eq, Structural)]
pub struct Gen3Save {
    pub save_slot: SaveSlot,
    pub trainer_id: TrainerID,
}

/// What decoding `img` gives: a format violation when no slot is current, a
/// checksum failure when a sector's checksum does not match, and otherwise
/// the current slot with the identifier read from that slot's trainer sector.
pub open spec fn decode(img: Seq<u8>) -> Result<Gen3Save, DecodeError> {
    match resolve(image_versions(img)) {
        None => Err(DecodeError::FormatViolation),
        Some(slot) => if !checksums_ok(img) {
            Err(DecodeError::ChecksumFailure)
        } else {
            Ok(
                Gen3Save {
                    save_slot: slot,
                    trainer_id: trainer_of(
                        sector_bytes(img, spec_sector_offset(slot, TRAINER_SECTOR)),
                    ),
                },
            )
        },
    }
}

impl Gen3Save {
    /// Decodes a save image.
    pub fn from_buffer(buffer: &[u8; 0x20000]) -> (r: Result<Gen3Save, DecodeError>)
        ensures
            r == decode(buffer@),
    {
        let save_slot = match slot_from_buffer(buffer) {
            Ok(s) => s,
            Err(e) => return Err(e),
        };
        if !is_valid_checksum(buffer) {
            return Err(DecodeError::ChecksumFailure);
        }
        let image: &[u8] = buffer.as_slice();
        let trainer_id = TrainerID::from_sector(
            sector_by_id(save_slot.sector_offset(TRAINER_SECTOR), image),
        );
        Ok(Gen3Save { save_slot, trainer_id })
    }
}

} // verus!
