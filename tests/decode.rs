use libpomeg::checksum::{is_valid_checksum, sector_checksum};
use libpomeg::sector::{get_save_index, sector_by_id};
use libpomeg::slot::{slot_from_buffer, slot_from_versions, SaveSlot};
use libpomeg::trainer::TrainerID;
use libpomeg::{DecodeError, Gen3Save};

const SECTOR: usize = 0x1000;

fn set_u16(buf: &mut [u8], off: usize, x: u16) {
    buf[off] = (x & 0xFF) as u8;
    buf[off + 1] = (x >> 8) as u8;
}

fn set_u32(buf: &mut [u8], off: usize, x: u32) {
    for k in 0..4 {
        buf[off + k] = (x >> (8 * k)) as u8;
    }
}

fn checksum_of(sector: &[u8]) -> u16 {
    let mut sum: u16 = 0;
    for w in 0..(0xFF4 / 2) {
        let word = sector[2 * w] as u16 | (sector[2 * w + 1] as u16) << 8;
        sum = sum.wrapping_add(word);
    }
    sum
}

fn seal(img: &mut [u8; 0x20000]) {
    for s in 0..32 {
        let base = s * SECTOR;
        let c = checksum_of(&img[base..base + SECTOR]);
        set_u16(img, base + 0xFF6, c);
    }
}

/// An image whose slot A sectors carry `a` and slot B sectors carry `b`, with a
/// trainer identifier in each slot's trainer sector and matching checksums.
fn image(a: u32, b: u32) -> Box<[u8; 0x20000]> {
    let mut img = Box::new([0u8; 0x20000]);
    for s in 0..32 {
        let base = s * SECTOR;
        for i in 0..0xFF4 {
            img[base + i] = ((s * 7 + i * 13) % 251) as u8;
        }
        let v = if s < 14 { a } else { b };
        set_u32(&mut img[..], base + 0xFFC, v);
    }
    set_u16(&mut img[..], SECTOR + 0xA, 0x1111);
    set_u16(&mut img[..], SECTOR + 0xD, 0x2222);
    set_u16(&mut img[..], 15 * SECTOR + 0xA, 0x1234);
    set_u16(&mut img[..], 15 * SECTOR + 0xD, 0x5678);
    seal(&mut img);
    img
}

fn versions(a: u32, b: u32) -> Vec<u32> {
    (0..27).map(|i| if i < 14 { a } else { b }).collect()
}

#[test]
fn successor_in_slot_b_wins() {
    let img = image(5, 6);
    assert_eq!(slot_from_buffer(&img), Ok(SaveSlot::B));
    assert_eq!(slot_from_versions(&versions(5, 6)), Ok(SaveSlot::B));
}

#[test]
fn predecessor_in_slot_b_loses() {
    let img = image(6, 5);
    assert_eq!(slot_from_buffer(&img), Ok(SaveSlot::A));
    assert_eq!(slot_from_versions(&versions(100, 99)), Ok(SaveSlot::A));
}

#[test]
fn equal_versions_are_rejected() {
    let img = image(7, 7);
    assert_eq!(slot_from_buffer(&img), Err(DecodeError::FormatViolation));
    assert_eq!(Gen3Save::from_buffer(&img), Err(DecodeError::FormatViolation));
    assert_eq!(slot_from_versions(&versions(0, 0)), Err(DecodeError::FormatViolation));
}

#[test]
fn equal_versions_at_largest_value_are_rejected() {
    assert_eq!(
        slot_from_versions(&versions(u32::MAX, u32::MAX)),
        Err(DecodeError::FormatViolation)
    );
    let img = image(u32::MAX, u32::MAX);
    assert_eq!(Gen3Save::from_buffer(&img), Err(DecodeError::FormatViolation));
}

#[test]
fn stray_version_in_slot_a_is_rejected() {
    let mut img = image(5, 6);
    set_u32(&mut img[..], 5 * SECTOR + 0xFFC, 9);
    seal(&mut img);
    assert_eq!(slot_from_buffer(&img), Err(DecodeError::FormatViolation));
    assert_eq!(Gen3Save::from_buffer(&img), Err(DecodeError::FormatViolation));
}

#[test]
fn stray_version_in_slot_b_is_rejected() {
    let mut v = versions(5, 6);
    v[26] = 5;
    assert_eq!(slot_from_versions(&v), Err(DecodeError::FormatViolation));
    let mut v = versions(5, 6);
    v[1] = 6;
    assert_eq!(slot_from_versions(&v), Err(DecodeError::FormatViolation));
}

#[test]
fn last_sector_of_slot_b_is_not_scanned() {
    let mut v = versions(5, 6);
    v.push(42);
    assert_eq!(slot_from_versions(&v), Ok(SaveSlot::B));
}

#[test]
fn wrapped_counter_in_slot_b_wins() {
    let img = image(u32::MAX, 0);
    assert_eq!(slot_from_buffer(&img), Ok(SaveSlot::B));
    assert_eq!(slot_from_versions(&versions(u32::MAX, u32::MAX - 1)), Ok(SaveSlot::B));
}

#[test]
fn trainer_round_trip() {
    let mut sector = vec![0u8; SECTOR];
    set_u16(&mut sector, 0xA, 0x1234);
    set_u16(&mut sector, 0xD, 0x5678);
    assert_eq!(
        TrainerID::from_sector(&sector),
        TrainerID { public: 0x1234, secret: 0x5678 }
    );
}

#[test]
fn trainer_secret_at_other_offset() {
    let mut sector = vec![0u8; SECTOR];
    set_u16(&mut sector, 0xA, 0xBEEF);
    set_u16(&mut sector, 0xC, 0x0102);
    let id = TrainerID::from_sector_at(&sector, 0xA, 0xC);
    assert_eq!(id, TrainerID { public: 0xBEEF, secret: 0x0102 });
}

#[test]
fn sector_addressing() {
    let mut buf = vec![0u8; 0x20000];
    for (i, b) in buf.iter_mut().enumerate() {
        *b = (i / SECTOR) as u8 ^ (i % 253) as u8;
    }
    assert_eq!(sector_by_id(31, &buf), &buf[0x1F000..0x20000]);
    assert_eq!(sector_by_id(0, &buf), &buf[..SECTOR]);
    assert_eq!(sector_by_id(14, &buf), &buf[14 * SECTOR..15 * SECTOR]);
}

#[test]
fn save_index_is_little_endian() {
    let mut sector = vec![0u8; SECTOR];
    set_u32(&mut sector, 0xFFC, 0x1234_5678);
    assert_eq!(get_save_index(&sector), 0x1234_5678);
    let mut longer = vec![0u8; 2 * SECTOR];
    set_u32(&mut longer, 0xFFC, 0xA1B2_C3D4);
    set_u32(&mut longer, 2 * SECTOR - 4, 7);
    assert_eq!(get_save_index(&longer), 0xA1B2_C3D4);
}

#[test]
fn sector_checksum_sums_words() {
    let mut sector = vec![0u8; SECTOR];
    sector[0] = 0x01;
    sector[1] = 0x02;
    assert_eq!(sector_checksum(&sector), 0x0201);
    set_u16(&mut sector, 2, 0xFFFF);
    assert_eq!(sector_checksum(&sector), 0x0200);
    sector[0xFF4] = 0x55;
    sector[0xFF6] = 0x66;
    assert_eq!(sector_checksum(&sector), 0x0200);
}

#[test]
fn checksum_accepts_untouched_image() {
    let img = image(5, 6);
    assert!(is_valid_checksum(&img));
}

#[test]
fn checksum_rejects_flipped_byte() {
    let mut img = image(5, 6);
    img[3 * SECTOR + 0x100] ^= 0x01;
    assert!(!is_valid_checksum(&img));
    assert_eq!(Gen3Save::from_buffer(&img), Err(DecodeError::ChecksumFailure));
}

#[test]
fn checksum_rejects_blank_sector_with_stored_value() {
    let mut img = Box::new([0u8; 0x20000]);
    assert!(is_valid_checksum(&img));
    img[31 * SECTOR + 0xFF6] = 1;
    assert!(!is_valid_checksum(&img));
}

#[test]
fn decode_slot_b() {
    let img = image(5, 6);
    let save = Gen3Save::from_buffer(&img).unwrap();
    assert_eq!(save.save_slot, SaveSlot::B);
    assert_eq!(save.trainer_id, TrainerID { public: 0x1234, secret: 0x5678 });
}

#[test]
fn decode_slot_a() {
    let img = image(6, 5);
    let save = Gen3Save::from_buffer(&img).unwrap();
    assert_eq!(save.save_slot, SaveSlot::A);
    assert_eq!(save.trainer_id, TrainerID { public: 0x1111, secret: 0x2222 });
}

#[test]
fn sector_offsets() {
    assert_eq!(SaveSlot::A.sector_offset(1), 1);
    assert_eq!(SaveSlot::B.sector_offset(1), 15);
    assert_eq!(SaveSlot::B.sector_offset(0), 14);
}
