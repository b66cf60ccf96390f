//! El Torito boot structures and the system-area boot sectors: the boot
//! record volume descriptor, the boot catalog, the in-image boot info
//! patches, and the protective MSDOS partition table.

use vstd::prelude::*;

use crate::bytes::{
    le16_val, le32_val, overlay, overlay_into, push_le16, push_le32, push_le64, push_zeros,
    spec_le16, spec_le32, spec_le64, word_sum16, word_sum32, zeros,
};
use crate::volume::{push_std_id, spec_std_id};

verus! {

/// The boot system identifier of the boot record volume descriptor:
/// `EL TORITO SPECIFICATION`, zero-padded to 32 bytes.
pub open spec fn spec_boot_system_id() -> Seq<u8> {
    seq![
        0x45u8, 0x4Cu8, 0x20u8, 0x54u8, 0x4Fu8, 0x52u8, 0x49u8, 0x54u8, 0x4Fu8, 0x20u8, 0x53u8,
        0x50u8, 0x45u8, 0x43u8, 0x49u8, 0x46u8, 0x49u8, 0x43u8, 0x41u8, 0x54u8, 0x49u8, 0x4Fu8,
        0x4Eu8,
    ] + zeros(9)
}

fn push_boot_system_id(out: &mut Vec<u8>)
    ensures
        final(out)@ == old(out)@ + spec_boot_system_id(),
{
    out.push(0x45u8);
    out.push(0x4Cu8);
    out.push(0x20u8);
    out.push(0x54u8);
    out.push(0x4Fu8);
    out.push(0x52u8);
    out.push(0x49u8);
    out.push(0x54u8);
    out.push(0x4Fu8);
    out.push(0x20u8);
    out.push(0x53u8);
    out.push(0x50u8);
    out.push(0x45u8);
    out.push(0x43u8);
    out.push(0x49u8);
    out.push(0x46u8);
    out.push(0x49u8);
    out.push(0x43u8);
    out.push(0x41u8);
    out.push(0x54u8);
    out.push(0x49u8);
    out.push(0x4Fu8);
    out.push(0x4Eu8);
    push_zeros(out, 9);
    assert(out@ =~= old(out)@ + spec_boot_system_id());
}

/// The 2048-byte boot record volume descriptor, pointing at the catalog.
pub open spec fn spec_brvd(cat_lba: u32) -> Seq<u8> {
    seq![0u8] + spec_std_id() + seq![1u8] + spec_boot_system_id() + zeros(32) + spec_le32(cat_lba)
        + zeros(1973)
}

/// Append the boot record volume descriptor.
pub fn push_brvd(out: &mut Vec<u8>, cat_lba: u32)
    ensures
        final(out)@ == old(out)@ + spec_brvd(cat_lba),
        final(out)@.len() == old(out)@.len() + 2048,
{
    out.push(0u8);
    push_std_id(out);
    out.push(1u8);
    push_boot_system_id(out);
    push_zeros(out, 32);
    push_le32(out, cat_lba);
    push_zeros(out, 1973);
    assert(out@ =~= old(out)@ + spec_brvd(cat_lba));
}

/// The catalog's validation entry: header 1, platform 0 (80x86), the
/// checksum word, and the key bytes `55` `AA`.  The checksum is chosen so
/// that the entry's 16-bit word sum is zero modulo 65536.
pub open spec fn spec_validation_entry() -> Seq<u8> {
    seq![1u8, 0u8, 0u8, 0u8] + zeros(24) + seq![0xAAu8, 0x55u8, 0x55u8, 0xAAu8]
}

/// The catalog's initial/default entry: bootable indicator `88`, the media
/// type, load segment 0 (the firmware default), the virtual sector count,
/// and the boot image's logical block address.
pub open spec fn spec_initial_entry(media: u8, count: u16, lba: u32) -> Seq<u8> {
    seq![0x88u8, media] + spec_le16(0u16) + seq![0u8, 0u8] + spec_le16(count) + spec_le32(lba)
        + zeros(20)
}

/// The complete 2048-byte boot catalog sector.
pub open spec fn spec_catalog(media: u8, count: u16, lba: u32) -> Seq<u8> {
    spec_validation_entry() + spec_initial_entry(media, count, lba) + zeros(1984)
}

/// Append the boot catalog sector.
pub fn push_catalog(out: &mut Vec<u8>, media: u8, count: u16, lba: u32)
    ensures
        final(out)@ == old(out)@ + spec_catalog(media, count, lba),
        final(out)@.len() == old(out)@.len() + 2048,
{
    out.push(1u8);
    out.push(0u8);
    out.push(0u8);
    out.push(0u8);
    push_zeros(out, 24);
    out.push(0xAAu8);
    out.push(0x55u8);
    out.push(0x55u8);
    out.push(0xAAu8);
    out.push(0x88u8);
    out.push(media);
    push_le16(out, 0u16);
    out.push(0u8);
    out.push(0u8);
    push_le16(out, count);
    push_le32(out, lba);
    push_zeros(out, 20);
    push_zeros(out, 1984);
    assert(out@ =~= old(out)@ + spec_catalog(media, count, lba));
}

/// The media type byte: no emulation when requested, else the matching
/// floppy emulation code for the three standard floppy sizes, else hard
/// disk emulation.
pub open spec fn spec_media_type(no_emu: bool, len: nat) -> u8 {
    if no_emu {
        0u8
    } else if len == 1228800 {
        1u8
    } else if len == 1474560 {
        2u8
    } else if len == 2949120 {
        3u8
    } else {
        4u8
    }
}

/// Compute the media type byte.
pub fn media_type(no_emu: bool, len: u64) -> (r: u8)
    ensures
        r == spec_media_type(no_emu, len as nat),
{
    if no_emu {
        0
    } else if len == 1228800 {
        1
    } else if len == 1474560 {
        2
    } else if len == 2949120 {
        3
    } else {
        4
    }
}

/// The stored virtual sector count: the requested load size when nonzero,
/// else the boot image's length in 512-byte sectors; either value is
/// saturated at the 16-bit field's maximum.
pub open spec fn spec_boot_count(boot_load_size: u32, len: nat) -> u16 {
    if boot_load_size != 0 {
        if boot_load_size > 0xFFFF {
            0xFFFFu16
        } else {
            boot_load_size as u16
        }
    } else {
        let s = (len + 511) / 512;
        if s > 0xFFFF {
            0xFFFFu16
        } else {
            s as u16
        }
    }
}

/// Compute the stored virtual sector count.
pub fn boot_count(boot_load_size: u32, len: u64) -> (r: u16)
    requires
        len <= 0xFFFFFFFF,
    ensures
        r == spec_boot_count(boot_load_size, len as nat),
{
    if boot_load_size != 0 {
        if boot_load_size > 0xFFFF {
            0xFFFF
        } else {
            boot_load_size as u16
        }
    } else {
        let s: u64 = (len + 511) / 512;
        if s > 0xFFFF {
            0xFFFF
        } else {
            s as u16
        }
    }
}

/// The boot info table checksum: the 32-bit word sum of the image from
/// byte 64 to the end, modulo 2^32.
pub open spec fn spec_info_csum(img: Seq<u8>) -> u32 {
    if img.len() >= 64 {
        (word_sum32(img.skip(64)) % 0x100000000) as u32
    } else {
        0u32
    }
}

/// The 56-byte boot info table: the volume descriptor's block address, the
/// boot image's block address and byte length, and the checksum.
pub open spec fn spec_info_table(img: Seq<u8>, bi_lba: u32, bi_len: u32) -> Seq<u8> {
    spec_le32(16u32) + spec_le32(bi_lba) + spec_le32(bi_len) + spec_le32(spec_info_csum(img))
        + zeros(40)
}

/// The boot image after its requested patch: the 56-byte info table at
/// byte 8, or the GRUB2 boot info block (the image's 512-byte block
/// address plus five, as a 64-bit field at byte 500), or no patch.
pub open spec fn spec_patched_image(
    img: Seq<u8>,
    bi_lba: u32,
    bi_len: u32,
    boot_info_table: bool,
    grub2_boot_info: bool,
) -> Seq<u8> {
    if boot_info_table {
        overlay(img, 8, spec_info_table(img, bi_lba, bi_len))
    } else if grub2_boot_info {
        overlay(img, 500, spec_le64(((bi_lba as u64) * 4 + 5) as u64))
    } else {
        img
    }
}

/// Compute the boot info table checksum over the sector-padded image.
fn boot_csum(img: &Vec<u8>) -> (r: u32)
    requires
        img@.len() % 4 == 0,
    ensures
        r == spec_info_csum(img@),
{
    if img.len() < 64 {
        return 0;
    }
    let ghost t: Seq<u8> = img@.skip(64);
    let n: usize = img.len();
    let mut acc: u32 = 0;
    let mut i: usize = 64;
    while i <= n - 4
        invariant
            64 <= i <= n,
            n == img@.len(),
            n % 4 == 0,
            i % 4 == 0,
            n >= 64,
            t == img@.skip(64),
            acc == word_sum32(t.take(i - 64)) % 0x100000000,
        decreases n - i,
    {
        let w: u32 = img[i] as u32 + (img[i + 1] as u32) * 0x100 + (img[i + 2] as u32) * 0x10000 + (
        img[i + 3] as u32) * 0x1000000;
        let s: u64 = acc as u64 + w as u64;
        let ghost j: int = i - 64;
        proof {
            assert(t.take(j + 4).take(j) =~= t.take(j));
            assert(t.take(j + 4).skip(j + 4 - 4) =~= t.subrange(j, j + 4));
            assert(le32_val(t.subrange(j, j + 4)) == w);
            assert(word_sum32(t.take(j + 4)) == word_sum32(t.take(j)) + w);
            vstd::arithmetic::div_mod::lemma_add_mod_noop(
                word_sum32(t.take(j)),
                w as int,
                0x100000000,
            );
            vstd::arithmetic::div_mod::lemma_small_mod(w as nat, 0x100000000nat);
        }
        acc = (s % 0x100000000) as u32;
        i = i + 4;
    }
    proof {
        assert(i == n);
        assert(t.take(n - 64) =~= t);
    }
    acc
}

/// Apply the requested boot info patch to the sector-padded boot image.
pub fn apply_boot_patches(
    img: &mut Vec<u8>,
    bi_lba: u32,
    bi_len: u32,
    boot_info_table: bool,
    grub2_boot_info: bool,
)
    requires
        old(img)@.len() % 2048 == 0,
    ensures
        final(img)@ == spec_patched_image(
            old(img)@,
            bi_lba,
            bi_len,
            boot_info_table,
            grub2_boot_info,
        ),
{
    if boot_info_table {
        proof {
            assert(img@.len() % 4 == 0) by {
                vstd::arithmetic::div_mod::lemma_mod_mod(img@.len() as int, 4, 512);
            }
        }
        let csum: u32 = boot_csum(img);
        let mut table: Vec<u8> = Vec::new();
        push_le32(&mut table, 16u32);
        push_le32(&mut table, bi_lba);
        push_le32(&mut table, bi_len);
        push_le32(&mut table, csum);
        push_zeros(&mut table, 40);
        assert(table@ =~= spec_info_table(img@, bi_lba, bi_len));
        overlay_into(img, 8, table.as_slice());
    } else if grub2_boot_info {
        let mut block: Vec<u8> = Vec::new();
        push_le64(&mut block, (bi_lba as u64) * 4 + 5);
        overlay_into(img, 500, block.as_slice());
    }
}

/// The 512-byte protective MSDOS partition table: one bootable partition
/// of the conventional whole-disc type, spanning the entire image in
/// 512-byte blocks, saturated at the 32-bit field's maximum.
pub open spec fn spec_protective_mbr(total: u32) -> Seq<u8> {
    zeros(446) + seq![0x80u8, 0x00u8, 0x01u8, 0x00u8, 0xCDu8, 0xFFu8, 0xFFu8, 0xFFu8] + spec_le32(
        0u32,
    ) + spec_le32(spec_mbr_blocks(total)) + zeros(48) + seq![0x55u8, 0xAAu8]
}

/// The image's size in 512-byte blocks, saturated to 32 bits.
pub open spec fn spec_mbr_blocks(total: u32) -> u32 {
    if total > 0x3FFFFFFF {
        0xFFFFFFFFu32
    } else {
        (total * 4) as u32
    }
}

/// Build the protective MSDOS partition table.
pub fn build_protective_mbr(total: u32) -> (r: Vec<u8>)
    ensures
        r@ == spec_protective_mbr(total),
        r@.len() == 512,
{
    let mut out: Vec<u8> = Vec::new();
    push_zeros(&mut out, 446);
    out.push(0x80u8);
    out.push(0x00u8);
    out.push(0x01u8);
    out.push(0x00u8);
    out.push(0xCDu8);
    out.push(0xFFu8);
    out.push(0xFFu8);
    out.push(0xFFu8);
    push_le32(&mut out, 0u32);
    let blocks: u32 = if total > 0x3FFFFFFF {
        0xFFFFFFFF
    } else {
        total * 4
    };
    push_le32(&mut out, blocks);
    push_zeros(&mut out, 48);
    out.push(0x55u8);
    out.push(0xAAu8);
    assert(out@ =~= spec_protective_mbr(total));
    out
}

/// The 16-sector system area: the boot sector bytes (or nothing),
/// zero-filled to 32768 bytes, with the protective partition table written
/// over the first 512 bytes when requested.
pub open spec fn spec_system_area(bootsec: Seq<u8>, protective: bool, total: u32) -> Seq<u8>
    recommends
        bootsec.len() <= 32768,
{
    let base = bootsec + zeros((32768 - bootsec.len()) as nat);
    if protective {
        overlay(base, 0, spec_protective_mbr(total))
    } else {
        base
    }
}

/// Build the system area.
pub fn build_system_area(bootsec: &Vec<u8>, protective: bool, total: u32) -> (r: Vec<u8>)
    requires
        bootsec@.len() <= 32768,
    ensures
        r@ == spec_system_area(bootsec@, protective, total),
        r@.len() == 32768,
{
    let mut out: Vec<u8> = Vec::new();
    crate::bytes::push_bytes(&mut out, bootsec.as_slice());
    push_zeros(&mut out, 32768 - bootsec.len());
    if protective {
        let mbr: Vec<u8> = build_protective_mbr(total);
        overlay_into(&mut out, 0, mbr.as_slice());
    }
    out
}

/// Law: the 16-bit word sum over the 32-byte validation entry is zero
/// modulo 65536.
pub proof fn lemma_validation_checksum()
    ensures
        word_sum16(spec_validation_entry()) % 0x10000 == 0,
{
    let v = spec_validation_entry();
    assert(v.len() == 32);
    lemma_word_sum16_zeros(24);
    let a: Seq<u8> = seq![1u8, 0u8, 0u8, 0u8];
    let z: Seq<u8> = zeros(24);
    let b: Seq<u8> = seq![0xAAu8, 0x55u8, 0x55u8, 0xAAu8];
    lemma_word_sum16_concat(a, z);
    lemma_word_sum16_concat(a + z, b);
    assert(word_sum16(a) == 1) by {
        reveal_with_fuel(word_sum16, 3);
        assert(a.skip(2) =~= seq![0u8, 0u8]);
        assert(a.take(2).take(0).len() == 0);
        assert(a.take(2).skip(0) =~= seq![1u8, 0u8]);
    }
    assert(word_sum16(b) == 0xFFFF) by {
        reveal_with_fuel(word_sum16, 3);
        assert(b.skip(2) =~= seq![0x55u8, 0xAAu8]);
        assert(b.take(2).take(0).len() == 0);
        assert(b.take(2).skip(0) =~= seq![0xAAu8, 0x55u8]);
    }
    assert(v =~= a + z + b);
    assert(word_sum16(v) == 0x10000);
}

/// The word sum of even-length pieces adds up.
pub proof fn lemma_word_sum16_concat(a: Seq<u8>, b: Seq<u8>)
    requires
        b.len() % 2 == 0,
    ensures
        word_sum16(a + b) == word_sum16(a) + word_sum16(b),
    decreases b.len(),
{
    if b.len() == 0 {
        assert(a + b =~= a);
    } else {
        let b2 = b.take(b.len() - 2);
        lemma_word_sum16_concat(a, b2);
        assert((a + b).take((a + b).len() - 2) =~= a + b2);
        assert((a + b).skip((a + b).len() - 2) =~= b.skip(b.len() - 2));
    }
}

/// The word sum of zero bytes is zero.
pub proof fn lemma_word_sum16_zeros(n: nat)
    requires
        n % 2 == 0,
    ensures
        word_sum16(zeros(n)) == 0,
    decreases n,
{
    if n >= 2 {
        lemma_word_sum16_zeros((n - 2) as nat);
        assert(zeros(n).take(n - 2) =~= zeros((n - 2) as nat));
        assert(le16_val(zeros(n).skip(n - 2)) == 0);
    }
}

} // verus!
