//! The trainer identifier stored in a save slot.
use crate::bytes::{le_u16, lemma_le_u16_put, put_le_u16, read_u16_le};
use vstd::prelude::*;
use vstd::slice::slice_subrange;

verus! {

/// Slot-relative sector that holds the trainer identifier.
pub const TRAINER_SECTOR: u8 = 1;

/// Offset, within the trainer sector, of the little-endian public ID.
pub const PUBLIC_ID_OFFSET: usize = 0xA;

/// Offset, within the trainer sector, of the little-endian secret ID.
///
/// The commonly documented layout of this format puts the secret ID right
/// after the public ID, at 0xC; this reader takes it from 0xD, so byte 0xC is
/// skipped. `TrainerID::from_sector_at` reads it from any other offset.
pub const SECRET_ID_OFFSET: usize = 0xD;

/// A trainer's public and secret identifiers.
#[derive(Clone, Copy, Debug, PartialEq, Eq, Structural)]
pub struct TrainerID {
    pub public: u16,
    pub secret: u16,
}

/// The identifier whose parts a sector holds at `public_offset` and `secret_offset`.
pub open spec fn trainer_at(sec: Seq<u8>, public_offset: int, secret_offset: int) -> TrainerID {
    TrainerID { public: le_u16(sec, public_offset), secret: le_u16(sec, secret_offset) }
}

/// The identifier that a trainer sector holds at the default offsets.
pub open spec fn trainer_of(sec: Seq<u8>) -> TrainerID {
    trainer_at(sec, PUBLIC_ID_OFFSET as int, SECRET_ID_OFFSET as int)
}

impl TrainerID {
    /// Reads the identifier from a trainer sector at the default offsets.
    pub fn from_sector(sector: &[u8]) -> (r: TrainerID)
        requires
            sector@.len() >= SECRET_ID_OFFSET + 2,
        ensures
            r == trainer_of(sector@),
    {
        TrainerID::from_sector_at(sector, PUBLIC_ID_OFFSET, SECRET_ID_OFFSET)
    }

    /// Reads the identifier from a trainer sector, with the public ID at
    /// `public_offset` and the secret ID at `secret_offset`.
    pub fn from_sector_at(sector: &[u8], public_offset: usize, secret_offset: usize) -> (r:
        TrainerID)
        requires
            public_offset + 2 <= sector@.len(),
            secret_offset + 2 <= sector@.len(),
        ensures
            r == trainer_at(sector@, public_offset as int, secret_offset as int),
    {
        let len: usize = sector.len();
        assert(public_offset + 2 <= len && secret_offset + 2 <= len);
        let public = read_u16_le(slice_subrange(sector, public_offset, public_offset + 2));
        let secret = read_u16_le(slice_subrange(sector, secret_offset, secret_offset + 2));
        TrainerID { public, secret }
    }
}

/// A trainer sector built by writing `public` and `secret` at the default
/// offsets decodes to exactly those two values.
pub proof fn lemma_trainer_round_trip(sec: Seq<u8>, public: u16, secret: u16)
    requires
        sec.len() >= SECRET_ID_OFFSET + 2,
    ensures
        trainer_of(
            put_le_u16(put_le_u16(sec, PUBLIC_ID_OFFSET as int, public), SECRET_ID_OFFSET as int, secret),
        ) == (TrainerID { public, secret }),
{
    let with_public = put_le_u16(sec, PUBLIC_ID_OFFSET as int, public);
    let built = put_le_u16(with_public, SECRET_ID_OFFSET as int, secret);
    lemma_le_u16_put(sec, PUBLIC_ID_OFFSET as int, public);
    lemma_le_u16_put(with_public, SECRET_ID_OFFSET as int, secret);
    assert(built[PUBLIC_ID_OFFSET as int] == with_public[PUBLIC_ID_OFFSET as int]);
    assert(built[PUBLIC_ID_OFFSET + 1] == with_public[PUBLIC_ID_OFFSET + 1]);
}

} // verus!
