//! Tests of the individual build components through their public
//! interfaces.

use iso::bytes::{push_both16, push_both32, push_le16, push_le32, sector_count};
use iso::errors::IsoError;
use iso::names::{bytes_equal, fold_name, label_bytes};
use iso::sector::SectorAllocator;

#[test]
fn sector_count_rounds_up() {
    assert_eq!(sector_count(0), 0);
    assert_eq!(sector_count(1), 1);
    assert_eq!(sector_count(2048), 1);
    assert_eq!(sector_count(2049), 2);
    assert_eq!(sector_count(4096), 2);
}

#[test]
fn allocator_hands_out_monotonic_extents() {
    let mut alloc = SectorAllocator::new(16);
    let a = alloc.reserve(2048).unwrap();
    assert_eq!(a.lba, 16);
    assert_eq!(a.length_bytes, 2048);
    let b = alloc.reserve(10).unwrap();
    assert_eq!(b.lba, 17);
    let c = alloc.reserve(0).unwrap();
    assert_eq!(c.lba, 18);
    assert_eq!(alloc.current_sector_count(), 18);
}

#[test]
fn allocator_refuses_overflow() {
    let mut alloc = SectorAllocator::new(u32::MAX - 1);
    assert_eq!(alloc.reserve(3 * 2048), Err(IsoError::CapacityError));
    // The failed request leaves the allocator unchanged.
    assert_eq!(alloc.current_sector_count(), u32::MAX - 1);
    let d = alloc.reserve(2048).unwrap();
    assert_eq!(d.lba, u32::MAX - 1);
}

#[test]
fn names_fold_and_validate() {
    assert_eq!(fold_name("main.wasm").unwrap(), b"MAIN.WASM");
    assert_eq!(fold_name("A_1.txt").unwrap(), b"A_1.TXT");
    assert_eq!(fold_name("NODOT8"). unwrap(), b"NODOT8");
    assert!(fold_name("").is_none());
    assert!(fold_name("NINECHARS").is_none());
    assert!(fold_name("A-B.TXT").is_none());
    assert!(fold_name("A..TXT").is_none());
    assert!(fold_name("A.WASMX").is_none());
}

#[test]
fn labels_validate() {
    assert_eq!(label_bytes("DBGAME-TEST").unwrap(), b"DBGAME-TEST");
    assert!(label_bytes(&"B".repeat(33)).is_none());
    assert!(label_bytes("bad lower").is_none());
    assert!(label_bytes("OK WITH SPACE.AND-DASH_1").is_some());
}

#[test]
fn byte_vectors_compare() {
    assert!(bytes_equal(&vec![1, 2, 3], &vec![1, 2, 3]));
    assert!(!bytes_equal(&vec![1, 2, 3], &vec![1, 2]));
    assert!(!bytes_equal(&vec![1, 2, 3], &vec![1, 2, 4]));
}

#[test]
fn endian_fields_encode_both_ways() {
    let mut v: Vec<u8> = Vec::new();
    push_le16(&mut v, 0x1234);
    push_le32(&mut v, 0x89ABCDEF);
    assert_eq!(v, vec![0x34, 0x12, 0xEF, 0xCD, 0xAB, 0x89]);
    let mut w: Vec<u8> = Vec::new();
    push_both16(&mut w, 0x1234);
    assert_eq!(w, vec![0x34, 0x12, 0x12, 0x34]);
    let mut x: Vec<u8> = Vec::new();
    push_both32(&mut x, 0x01020304);
    assert_eq!(x, vec![4, 3, 2, 1, 1, 2, 3, 4]);
}
