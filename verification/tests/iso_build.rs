//! End-to-end tests of the image builder: the built bytes are decoded
//! again with plain readers and held against the configuration.

use iso::bytes::SECTOR_SIZE;
use iso::clock::DateTime;
use iso::errors::IsoError;
use iso::image::create_iso;
use iso::options::{ElToritoOpt, InputFile, Opt};

fn ts() -> DateTime {
    DateTime { year: 2024, month: 5, day: 6, hour: 7, minute: 8, second: 9 }
}

fn plain_opt(files: Vec<(&str, &[u8])>) -> Opt {
    Opt {
        eltorito_opt: ElToritoOpt {
            eltorito_boot: None,
            no_emu_boot: true,
            no_boot: true,
            boot_info_table: false,
            grub2_boot_info: false,
        },
        embedded_boot: None,
        grub2_mbr: None,
        boot_load_size: 0,
        protective_msdos_label: false,
        primary_volume_name: Some(String::from("DBGAME-TEST")),
        input_files: files
            .into_iter()
            .map(|(n, d)| InputFile { name: String::from(n), data: d.to_vec() })
            .collect(),
    }
}

fn boot_opt(files: Vec<(&str, &[u8])>, boot_image: Vec<u8>) -> Opt {
    let mut o = plain_opt(files);
    o.eltorito_opt.no_boot = false;
    o.eltorito_opt.eltorito_boot = Some(boot_image);
    o
}

fn u16le(b: &[u8], off: usize) -> u32 {
    b[off] as u32 + ((b[off + 1] as u32) << 8)
}

fn u32le(b: &[u8], off: usize) -> u32 {
    b[off] as u32
        + ((b[off + 1] as u32) << 8)
        + ((b[off + 2] as u32) << 16)
        + ((b[off + 3] as u32) << 24)
}

fn u32be(b: &[u8], off: usize) -> u32 {
    b[off + 3] as u32
        + ((b[off + 2] as u32) << 8)
        + ((b[off + 1] as u32) << 16)
        + ((b[off] as u32) << 24)
}

/// Decode every file record of the root directory: (name, lba, length).
fn decode_root(img: &[u8]) -> Vec<(String, u32, u32)> {
    // Root directory record inside the PVD, at byte 156 of sector 16.
    let pvd = 16 * 2048;
    let root_lba = u32le(img, pvd + 156 + 2) as usize;
    let root_len = u32le(img, pvd + 156 + 10) as usize;
    let dir = &img[root_lba * 2048..root_lba * 2048 + root_len];
    let mut out = Vec::new();
    let mut off = 0usize;
    let mut seen = 0usize;
    while off < dir.len() {
        let rl = dir[off] as usize;
        if rl == 0 {
            // Zero padding up to the next sector boundary.
            off = (off / 2048 + 1) * 2048;
            continue;
        }
        let name_len = dir[off + 32] as usize;
        let name_bytes = &dir[off + 33..off + 33 + name_len];
        let lba = u32le(dir, off + 2);
        let len = u32le(dir, off + 10);
        if seen >= 2 {
            out.push((String::from_utf8(name_bytes.to_vec()).unwrap(), lba, len));
        } else {
            // The two synthetic entries come first.
            assert_eq!(name_len, 1);
            assert_eq!(name_bytes[0], seen as u8);
            assert_eq!(dir[off + 25], 2);
        }
        seen += 1;
        off += rl;
    }
    out
}

#[test]
fn empty_input_image() {
    let img = create_iso(&plain_opt(vec![]), &ts()).unwrap();
    // 16 system sectors, PVD, terminator, two path tables, root directory.
    assert_eq!(img.len(), 21 * SECTOR_SIZE);
    assert_eq!(img.len() % SECTOR_SIZE, 0);
    // PVD magic.
    assert_eq!(img[16 * 2048], 1);
    assert_eq!(&img[16 * 2048 + 1..16 * 2048 + 6], b"CD001");
    // Only the two synthetic records.
    assert_eq!(decode_root(&img), vec![]);
}

#[test]
fn round_trip_two_files() {
    let img =
        create_iso(&plain_opt(vec![("A.TXT", b"hello"), ("B.BIN", b"\x00\x01\x02")]), &ts())
            .unwrap();
    let entries = decode_root(&img);
    assert_eq!(entries.len(), 2);
    assert_eq!(entries[0].0, "A.TXT");
    assert_eq!(entries[1].0, "B.BIN");
    let a = &img[entries[0].1 as usize * 2048..][..entries[0].2 as usize];
    let b = &img[entries[1].1 as usize * 2048..][..entries[1].2 as usize];
    assert_eq!(a, b"hello");
    assert_eq!(b, b"\x00\x01\x02");
    // The path tables agree on the root directory and on their size.
    let pvd = 16 * 2048;
    let path_size = u32le(&img, pvd + 132);
    assert_eq!(path_size, 10);
    let path_l = u32le(&img, pvd + 140) as usize;
    let path_m = u32be(&img, pvd + 148) as usize;
    let root_lba = u32le(&img, pvd + 156 + 2);
    assert_eq!(path_m, path_l + 1);
    assert_eq!(img[path_l * 2048], 1);
    assert_eq!(u32le(&img, path_l * 2048 + 2), root_lba);
    assert_eq!(u16le(&img, path_l * 2048 + 6), 1);
    assert_eq!(img[path_m * 2048], 1);
    assert_eq!(u32be(&img, path_m * 2048 + 2), root_lba);
}

#[test]
fn lowercase_names_folded() {
    let img = create_iso(&plain_opt(vec![("main.wasm", b"w")]), &ts()).unwrap();
    let entries = decode_root(&img);
    assert_eq!(entries.len(), 1);
    assert_eq!(entries[0].0, "MAIN.WASM");
}

#[test]
fn build_is_idempotent() {
    let mk = || plain_opt(vec![("A.TXT", b"hello"), ("B.BIN", b"\x00\x01\x02")]);
    let one = create_iso(&mk(), &ts()).unwrap();
    let two = create_iso(&mk(), &ts()).unwrap();
    assert_eq!(one, two);
}

#[test]
fn image_length_is_sector_multiple() {
    let img = create_iso(&plain_opt(vec![("X.BIN", &[7u8; 5000])]), &ts()).unwrap();
    assert_eq!(img.len() % SECTOR_SIZE, 0);
    // 21 sectors of structure plus three sectors of file data.
    assert_eq!(img.len(), 24 * SECTOR_SIZE);
}

#[test]
fn conflicting_boot_sectors_always_refused() {
    let mut o = plain_opt(vec![("A.TXT", b"x")]);
    o.embedded_boot = Some(vec![0x11; 512]);
    o.grub2_mbr = Some(vec![0x22; 512]);
    assert_eq!(create_iso(&o, &ts()), Err(IsoError::ConflictingBootSector));
    // Regardless of the other fields.
    o.protective_msdos_label = true;
    o.boot_load_size = 77;
    o.primary_volume_name = None;
    assert_eq!(create_iso(&o, &ts()), Err(IsoError::ConflictingBootSector));
}

#[test]
fn grub2_mbr_with_protective_label_refused() {
    let mut o = plain_opt(vec![]);
    o.grub2_mbr = Some(vec![0x22; 512]);
    o.protective_msdos_label = true;
    assert_eq!(create_iso(&o, &ts()), Err(IsoError::ConflictingBootSector));
}

#[test]
fn label_of_32_succeeds_33_fails() {
    let mut o = plain_opt(vec![]);
    o.primary_volume_name = Some("A".repeat(32));
    let img = create_iso(&o, &ts()).unwrap();
    assert_eq!(&img[16 * 2048 + 40..16 * 2048 + 72], "A".repeat(32).as_bytes());
    o.primary_volume_name = Some("A".repeat(33));
    assert_eq!(create_iso(&o, &ts()), Err(IsoError::LabelTooLong));
}

#[test]
fn label_with_bad_characters_fails() {
    let mut o = plain_opt(vec![]);
    o.primary_volume_name = Some(String::from("lower case"));
    assert_eq!(create_iso(&o, &ts()), Err(IsoError::LabelTooLong));
}

#[test]
fn no_boot_omits_catalog() {
    let mut o = boot_opt(vec![], vec![0xAB; 2048]);
    o.eltorito_opt.no_boot = true;
    let img = create_iso(&o, &ts()).unwrap();
    // The sector after the PVD is already the set terminator: no boot
    // record volume descriptor, and no catalog or boot image sectors.
    assert_eq!(img[17 * 2048], 255);
    assert_eq!(&img[17 * 2048 + 1..17 * 2048 + 6], b"CD001");
    assert_eq!(img.len(), 21 * 2048);
}

#[test]
fn boot_catalog_layout_and_checksum() {
    let o = boot_opt(vec![], vec![0xAB; 2048]);
    let img = create_iso(&o, &ts()).unwrap();
    // Boot record volume descriptor at sector 17.
    assert_eq!(img[17 * 2048], 0);
    assert_eq!(&img[17 * 2048 + 1..17 * 2048 + 6], b"CD001");
    assert_eq!(&img[17 * 2048 + 7..17 * 2048 + 30], b"EL TORITO SPECIFICATION");
    let cat_lba = u32le(&img, 17 * 2048 + 71) as usize;
    assert_eq!(cat_lba, 22);
    // Validation entry: key bytes and zero word sum.
    let val = &img[cat_lba * 2048..cat_lba * 2048 + 32];
    assert_eq!(val[0], 1);
    assert_eq!(val[1], 0);
    assert_eq!(val[30], 0x55);
    assert_eq!(val[31], 0xAA);
    let mut sum: u32 = 0;
    for w in 0..16 {
        sum = (sum + u16le(val, 2 * w)) & 0xFFFF;
    }
    assert_eq!(sum, 0);
    // Initial entry: bootable, no emulation, load segment 0, whole-image
    // sector count, boot image address.
    let ini = &img[cat_lba * 2048 + 32..cat_lba * 2048 + 64];
    assert_eq!(ini[0], 0x88);
    assert_eq!(ini[1], 0);
    assert_eq!(u16le(ini, 2), 0);
    assert_eq!(u16le(ini, 6), 4);
    assert_eq!(u32le(ini, 8), 23);
    // The boot image follows the catalog.
    assert_eq!(img[23 * 2048], 0xAB);
}

#[test]
fn boot_load_size_stored_when_nonzero() {
    let mut o = boot_opt(vec![], vec![0xAB; 2048]);
    o.boot_load_size = 7;
    let img = create_iso(&o, &ts()).unwrap();
    let cat_lba = u32le(&img, 17 * 2048 + 71) as usize;
    assert_eq!(u16le(&img, cat_lba * 2048 + 32 + 6), 7);
}

#[test]
fn floppy_sized_boot_image_gets_emulation_code() {
    let mut o = boot_opt(vec![], vec![0u8; 1474560]);
    o.eltorito_opt.no_emu_boot = false;
    let img = create_iso(&o, &ts()).unwrap();
    let cat_lba = u32le(&img, 17 * 2048 + 71) as usize;
    assert_eq!(img[cat_lba * 2048 + 32 + 1], 2);
}

#[test]
fn boot_info_table_patched() {
    let mut o = boot_opt(vec![], vec![0xAB; 4096]);
    o.eltorito_opt.boot_info_table = true;
    let img = create_iso(&o, &ts()).unwrap();
    let bi = &img[23 * 2048..23 * 2048 + 4096];
    assert_eq!(u32le(bi, 8), 16);
    assert_eq!(u32le(bi, 12), 23);
    assert_eq!(u32le(bi, 16), 4096);
    let mut expect: u32 = 0;
    let mut k = 64;
    while k < 4096 {
        expect = expect.wrapping_add(0xABABABAB);
        k += 4;
    }
    assert_eq!(u32le(bi, 20), expect);
    // Bytes outside the 56-byte table are untouched.
    assert_eq!(bi[7], 0xAB);
    assert_eq!(bi[64], 0xAB);
}

#[test]
fn grub2_boot_info_patched() {
    let mut o = boot_opt(vec![], vec![0xAB; 2048]);
    o.eltorito_opt.grub2_boot_info = true;
    let img = create_iso(&o, &ts()).unwrap();
    let bi = &img[23 * 2048..23 * 2048 + 2048];
    let lo = u32le(bi, 500) as u64;
    let hi = u32le(bi, 504) as u64;
    assert_eq!(lo + (hi << 32), 23 * 4 + 5);
}

#[test]
fn conflicting_info_formats_refused() {
    let mut o = boot_opt(vec![], vec![0xAB; 2048]);
    o.eltorito_opt.boot_info_table = true;
    o.eltorito_opt.grub2_boot_info = true;
    assert_eq!(create_iso(&o, &ts()), Err(IsoError::ConflictingBootInfoFormat));
}

#[test]
fn missing_boot_image_refused() {
    let mut o = plain_opt(vec![]);
    o.eltorito_opt.no_boot = false;
    assert_eq!(create_iso(&o, &ts()), Err(IsoError::MissingBootImage));
}

#[test]
fn oversized_boot_sector_refused() {
    let mut o = plain_opt(vec![]);
    o.embedded_boot = Some(vec![0x11; 32769]);
    assert_eq!(create_iso(&o, &ts()), Err(IsoError::BootSectorTooLarge));
}

#[test]
fn embedded_boot_sector_in_system_area() {
    let mut o = plain_opt(vec![]);
    o.embedded_boot = Some(vec![0x77; 1000]);
    let img = create_iso(&o, &ts()).unwrap();
    assert!(img[..1000].iter().all(|&b| b == 0x77));
    assert!(img[1000..32768].iter().all(|&b| b == 0));
}

#[test]
fn protective_label_writes_partition_table() {
    let mut o = plain_opt(vec![]);
    o.embedded_boot = Some(vec![0x77; 1000]);
    o.protective_msdos_label = true;
    let img = create_iso(&o, &ts()).unwrap();
    assert_eq!(img[510], 0x55);
    assert_eq!(img[511], 0xAA);
    // Partition entry: bootable, the conventional whole-disc type, the
    // whole image in 512-byte blocks.
    assert_eq!(img[446], 0x80);
    assert_eq!(img[446 + 4], 0xCD);
    assert_eq!(u32le(&img, 446 + 8), 0);
    assert_eq!(u32le(&img, 446 + 12), 21 * 4);
    // The embedded boot sector survives past the first 512 bytes.
    assert_eq!(img[512], 0x77);
}

#[test]
fn invalid_names_refused() {
    for name in ["", "TOOLONGNAME.TXT", "A B.TXT", "A.LONGX", "TWO.DOT.S", "X.TXT\u{e9}"] {
        let o = plain_opt(vec![(name, b"x")]);
        assert_eq!(create_iso(&o, &ts()), Err(IsoError::NameInvalid), "{name}");
    }
}

#[test]
fn duplicate_names_refused() {
    let o = plain_opt(vec![("a.txt", b"1"), ("A.TXT", b"2")]);
    assert_eq!(create_iso(&o, &ts()), Err(IsoError::DuplicateName));
}

#[test]
fn both_endian_fields_agree() {
    let img = create_iso(&plain_opt(vec![("A.TXT", b"hello")]), &ts()).unwrap();
    let pvd = 16 * 2048;
    // Volume space size.
    assert_eq!(u32le(&img, pvd + 80), u32be(&img, pvd + 84));
    assert_eq!(u32le(&img, pvd + 80) as usize * 2048, img.len());
    // Logical block size.
    assert_eq!(u16le(&img, pvd + 128), 2048);
    assert_eq!(u16le(&img, pvd + 128), (img[pvd + 131] as u32) + ((img[pvd + 130] as u32) << 8));
    // Path table size.
    assert_eq!(u32le(&img, pvd + 132), u32be(&img, pvd + 136));
}

#[test]
fn pvd_timestamps_and_root_record() {
    let img = create_iso(&plain_opt(vec![]), &ts()).unwrap();
    let pvd = 16 * 2048;
    assert_eq!(&img[pvd + 813..pvd + 829], b"2024050607080900");
    assert_eq!(img[pvd + 829], 0);
    // Root directory record: 34 bytes, directory flag, recording time.
    assert_eq!(img[pvd + 156], 34);
    assert_eq!(img[pvd + 156 + 25], 2);
    assert_eq!(img[pvd + 156 + 18], 124);
    assert_eq!(img[pvd + 156 + 19], 5);
    // Volume label, space-padded.
    assert_eq!(&img[pvd + 40..pvd + 51], b"DBGAME-TEST");
    assert_eq!(img[pvd + 51], 0x20);
}

#[test]
fn empty_file_allowed() {
    let img = create_iso(&plain_opt(vec![("E.BIN", b""), ("F.BIN", b"z")]), &ts()).unwrap();
    let entries = decode_root(&img);
    assert_eq!(entries.len(), 2);
    assert_eq!(entries[0].0, "E.BIN");
    assert_eq!(entries[0].2, 0);
    assert_eq!(entries[1].0, "F.BIN");
}

#[test]
fn many_files_cross_directory_sector_boundary() {
    let names: Vec<String> = (0..60).map(|i| format!("F{i:02}.BIN")).collect();
    let datas: Vec<Vec<u8>> = (0..60u8).map(|i| vec![i; 3]).collect();
    let files: Vec<(&str, &[u8])> =
        names.iter().map(|n| n.as_str()).zip(datas.iter().map(|d| d.as_slice())).collect();
    let img = create_iso(&plain_opt(files), &ts()).unwrap();
    let entries = decode_root(&img);
    assert_eq!(entries.len(), 60);
    // The directory needs two sectors: no record crosses the boundary.
    let pvd = 16 * 2048;
    assert_eq!(u32le(&img, pvd + 156 + 10), 2 * 2048);
    for (i, (name, lba, len)) in entries.iter().enumerate() {
        assert_eq!(name, &format!("F{i:02}.BIN"));
        assert_eq!(*len, 3);
        let got = &img[*lba as usize * 2048..][..3];
        assert_eq!(got, &[i as u8; 3]);
    }
}

#[test]
fn boot_image_and_files_share_the_layout() {
    let img = create_iso(&boot_opt(vec![("A.TXT", b"hi")], vec![0xCD; 600]), &ts()).unwrap();
    // Catalog at 22, one boot image sector at 23, the file after it.
    let entries = decode_root(&img);
    assert_eq!(entries.len(), 1);
    assert_eq!(entries[0].0, "A.TXT");
    assert_eq!(entries[0].1, 24);
    assert_eq!(&img[24 * 2048..24 * 2048 + 2], b"hi");
    assert_eq!(img[23 * 2048], 0xCD);
    assert_eq!(img.len(), 25 * SECTOR_SIZE);
}
