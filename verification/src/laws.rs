//! Crate-wide laws of the build, proved over the same spec functions that
//! `create_iso`'s contract uses.  The laws about single byte fields live
//! beside their definitions: the both-endian agreement in `bytes`, the
//! validation entry checksum in `boot`.

use vstd::prelude::*;

use crate::boot::{spec_boot_count, spec_brvd, spec_catalog, spec_media_type, spec_patched_image, spec_system_area};
use crate::bytes::{lemma_padded_len, padded, spec_sectors};
use crate::clock::DateTime;
use crate::dir::{lemma_dir_record_len, lemma_dir_table_len, spec_dir_record, spec_dir_table, spec_rec_len, spec_table_len};
use crate::errors::IsoError;
use crate::image::{
    spec_boot_image, spec_boot_part, spec_bootsec, spec_build, spec_cap_exceeded, spec_cat_lba,
    spec_bi_lba, spec_bi_sectors, spec_error, spec_file_lba, spec_file_start, spec_files_data, spec_fname, spec_has_boot, spec_image, spec_image_head,
    spec_label, spec_label_ok, spec_lens, spec_names_unique, spec_names_valid, spec_path_l_lba,
    spec_path_m_lba, spec_prefix_sectors, spec_records, spec_root_dir, spec_root_lba, spec_root_sectors,
    spec_root_size, spec_total, lemma_files_data_len, lemma_files_data_mod,
};
use crate::options::Opt;
use crate::path_table::{spec_path_table_l, spec_path_table_m, PATH_TABLE_SIZE};
use crate::volume::{lemma_pvd_len, spec_pvd, spec_terminator};

verus! {

/// Multiples of a sector add up to a multiple of a sector.
proof fn lemma_mod_sum(a: int, b: int)
    requires
        a % 2048 == 0,
        b % 2048 == 0,
    ensures
        (a + b) % 2048 == 0,
{
    vstd::arithmetic::div_mod::lemma_add_mod_noop(a, b, 2048);
}

/// Law: every successful build's byte length is an exact multiple of the
/// 2048-byte sector size.
pub proof fn lemma_image_len_sector_multiple(opt: Opt, ts: DateTime)
    requires
        spec_error(opt) is None,
    ensures
        spec_image(opt, ts).len() % 2048 == 0,
{
    let p1 = spec_system_area(spec_bootsec(opt), opt.protective_msdos_label, spec_total(opt) as u32);
    let p2 = spec_pvd(
        spec_label(opt),
        spec_total(opt) as u32,
        PATH_TABLE_SIZE,
        spec_path_l_lba(opt) as u32,
        spec_path_m_lba(opt) as u32,
        spec_root_lba(opt) as u32,
        (spec_root_sectors(opt) * 2048) as u32,
        ts,
    );
    assert(spec_label(opt).len() <= 32);
    lemma_pvd_len(
        spec_label(opt),
        spec_total(opt) as u32,
        PATH_TABLE_SIZE,
        spec_path_l_lba(opt) as u32,
        spec_path_m_lba(opt) as u32,
        spec_root_lba(opt) as u32,
        (spec_root_sectors(opt) * 2048) as u32,
        ts,
    );
    assert(spec_bootsec(opt).len() <= 32768);
    assert(p1.len() == 32768);
    let p3: Seq<u8> = if spec_has_boot(opt) {
        spec_brvd(spec_cat_lba(opt) as u32)
    } else {
        Seq::empty()
    };
    assert(p3.len() % 2048 == 0);
    let p4 = spec_terminator();
    assert(p4.len() == 2048);
    lemma_padded_len(spec_path_table_l(spec_root_lba(opt) as u32));
    lemma_padded_len(spec_path_table_m(spec_root_lba(opt) as u32));
    lemma_padded_len(spec_root_dir(opt, ts));
    let p5 = padded(spec_path_table_l(spec_root_lba(opt) as u32));
    let p6 = padded(spec_path_table_m(spec_root_lba(opt) as u32));
    let p7 = padded(spec_root_dir(opt, ts));
    let p8 = spec_boot_part(opt);
    assert(p8.len() % 2048 == 0) by {
        if spec_has_boot(opt) {
            lemma_padded_len(spec_boot_image(opt));
            lemma_mod_sum(2048, padded(spec_boot_image(opt)).len() as int);
        }
    }
    let pf = spec_files_data(opt, opt.input_files@.len() as int);
    lemma_files_data_mod(opt, opt.input_files@.len() as int);
    lemma_mod_sum(p1.len() as int, p2.len() as int);
    lemma_mod_sum((p1 + p2).len() as int, p3.len() as int);
    lemma_mod_sum((p1 + p2 + p3).len() as int, p4.len() as int);
    lemma_mod_sum((p1 + p2 + p3 + p4).len() as int, p5.len() as int);
    lemma_mod_sum((p1 + p2 + p3 + p4 + p5).len() as int, p6.len() as int);
    lemma_mod_sum((p1 + p2 + p3 + p4 + p5 + p6).len() as int, p7.len() as int);
    lemma_mod_sum((p1 + p2 + p3 + p4 + p5 + p6 + p7).len() as int, p8.len() as int);
    lemma_mod_sum((p1 + p2 + p3 + p4 + p5 + p6 + p7 + p8).len() as int, pf.len() as int);
}

/// The bytes before the file data area end exactly where the layout says
/// the file area starts.
#[verifier::rlimit(100)]
pub proof fn lemma_image_head_len(opt: Opt, ts: DateTime)
    requires
        spec_error(opt) is None,
    ensures
        spec_image_head(opt, ts).len() == spec_file_start(opt) * 2048,
{
    assert(spec_label(opt).len() <= 32);
    lemma_pvd_len(
        spec_label(opt),
        spec_total(opt) as u32,
        PATH_TABLE_SIZE,
        spec_path_l_lba(opt) as u32,
        spec_path_m_lba(opt) as u32,
        spec_root_lba(opt) as u32,
        (spec_root_sectors(opt) * 2048) as u32,
        ts,
    );
    assert(spec_bootsec(opt).len() <= 32768);
    lemma_padded_len(spec_path_table_l(spec_root_lba(opt) as u32));
    lemma_padded_len(spec_path_table_m(spec_root_lba(opt) as u32));
    assert(spec_sectors(10nat) == 1);
    lemma_root_dir_fills_extent(opt, ts);
    let rs: int = spec_root_sectors(opt) as int;
    let bis: int = spec_bi_sectors(opt) as int;
    assert(padded(spec_root_dir(opt, ts)).len() == 2048 * rs);
    if spec_has_boot(opt) {
        lemma_padded_len(spec_boot_image(opt));
        assert(spec_boot_part(opt).len() == 2048 + 2048 * bis);
        assert(spec_file_start(opt) == 16 + 3 + 1 + 1 + rs + 1 + bis);
    } else {
        assert(spec_boot_part(opt).len() == 0);
        assert(spec_file_start(opt) == 16 + 2 + 1 + 1 + rs);
    }
}

/// Law: a successful build's byte length is exactly the volume space
/// size that its primary volume descriptor advertises, in sectors.
pub proof fn lemma_image_len_matches_volume_size(opt: Opt, ts: DateTime)
    requires
        spec_error(opt) is None,
    ensures
        spec_image(opt, ts).len() == spec_total(opt) * 2048,
{
    lemma_image_head_len(opt, ts);
    lemma_files_data_len(opt, opt.input_files@.len() as int);
}

/// The bytes of file `i` stand at the start of its slot in the file data
/// area, whatever later files follow.
proof fn lemma_files_data_contents(opt: Opt, i: int, j: int)
    requires
        0 <= i < j,
    ensures
        spec_files_data(opt, j).len() >= 2048 * spec_prefix_sectors(opt, i)
            + opt.input_files@[i].data@.len(),
        spec_files_data(opt, j).subrange(
            2048 * spec_prefix_sectors(opt, i),
            2048 * spec_prefix_sectors(opt, i) + opt.input_files@[i].data@.len(),
        ) == opt.input_files@[i].data@,
    decreases j,
{
    let data = opt.input_files@[i].data@;
    let off = 2048 * spec_prefix_sectors(opt, i);
    lemma_files_data_len(opt, i);
    crate::bytes::lemma_padded_len(data);
    if j == i + 1 {
        lemma_files_data_len(opt, j);
        assert(spec_files_data(opt, j) == spec_files_data(opt, i) + padded(data));
        assert(spec_files_data(opt, j).subrange(off, off + data.len()) =~= data);
    } else {
        lemma_files_data_contents(opt, i, j - 1);
        lemma_files_data_len(opt, j - 1);
        crate::bytes::lemma_padded_len(opt.input_files@[j - 1].data@);
        assert(spec_files_data(opt, j) == spec_files_data(opt, j - 1) + padded(
            opt.input_files@[j - 1].data@,
        ));
        assert(spec_files_data(opt, j).subrange(off, off + data.len()) =~= spec_files_data(
            opt,
            j - 1,
        ).subrange(off, off + data.len()));
    }
}

/// `data` stands in `img` exactly at sector `lba`.
pub open spec fn extent_holds(img: Seq<u8>, lba: int, data: Seq<u8>) -> bool {
    &&& 0 <= lba * 2048
    &&& lba * 2048 + data.len() <= img.len()
    &&& img.subrange(lba * 2048, lba * 2048 + data.len()) == data
}

/// Law: a successful image holds each input file's bytes exactly at the
/// extent assigned to it, the extent whose address its directory record
/// stores.
pub proof fn lemma_file_extent_holds_contents(opt: Opt, ts: DateTime, i: int)
    requires
        spec_error(opt) is None,
        0 <= i < opt.input_files@.len(),
    ensures
        extent_holds(spec_image(opt, ts), spec_file_lba(opt, i), opt.input_files@[i].data@),
{
    let n = opt.input_files@.len() as int;
    lemma_image_head_len(opt, ts);
    crate::image::lemma_prefix_nonneg(opt, i);
    lemma_files_data_contents(opt, i, n);
    lemma_files_data_len(opt, n);
    lemma_extent_in_concat(
        spec_image(opt, ts),
        spec_image_head(opt, ts),
        spec_files_data(opt, n),
        spec_file_start(opt),
        spec_prefix_sectors(opt, i),
        opt.input_files@[i].data@,
    );
}

/// A piece that stands at a sector offset inside the right part of a
/// concatenation stands at the combined sector offset of the whole.
proof fn lemma_extent_in_concat(
    img: Seq<u8>,
    head: Seq<u8>,
    files: Seq<u8>,
    fs: int,
    pre: int,
    data: Seq<u8>,
)
    requires
        img == head + files,
        head.len() == fs * 2048,
        0 <= 2048 * pre,
        2048 * pre + data.len() <= files.len(),
        files.subrange(2048 * pre, 2048 * pre + data.len()) == data,
    ensures
        extent_holds(img, fs + pre, data),
{
    assert((fs + pre) * 2048 == head.len() + 2048 * pre);
    assert(img.subrange(head.len() + 2048 * pre, head.len() + 2048 * pre + data.len())
        =~= files.subrange(2048 * pre, 2048 * pre + data.len()));
}

/// Law: the build is a pure function of its inputs.  Two builds from equal
/// configurations and equal timestamps produce identical outcomes; with
/// `create_iso`'s contract this makes repeated builds byte-identical.
pub proof fn lemma_build_deterministic(o1: Opt, o2: Opt, t1: DateTime, t2: DateTime)
    requires
        o1 == o2,
        t1 == t2,
    ensures
        spec_build(o1, t1) == spec_build(o2, t2),
{
}

/// Law: supplying both an embedded boot sector and a GRUB2 MBR fails with
/// the conflicting-boot-sector error, whatever the other fields hold.
pub proof fn lemma_conflicting_boot_sectors(opt: Opt, ts: DateTime)
    requires
        opt.embedded_boot is Some,
        opt.grub2_mbr is Some,
    ensures
        spec_build(opt, ts) == Err::<Seq<u8>, IsoError>(IsoError::ConflictingBootSector),
{
}

/// Law: a supplied label longer than 32 characters fails with
/// `LabelTooLong`, provided no system-area or boot-option conflict is
/// reported first.
pub proof fn lemma_label_too_long(opt: Opt, ts: DateTime)
    requires
        !(opt.embedded_boot is Some && opt.grub2_mbr is Some),
        !(opt.grub2_mbr is Some && opt.protective_msdos_label),
        spec_bootsec(opt).len() <= 32768,
        !(opt.eltorito_opt.boot_info_table && opt.eltorito_opt.grub2_boot_info),
        !(spec_has_boot(opt) && opt.eltorito_opt.eltorito_boot is None),
        opt.primary_volume_name is Some,
        spec_label(opt).len() > 32,
    ensures
        spec_build(opt, ts) == Err::<Seq<u8>, IsoError>(IsoError::LabelTooLong),
{
}

/// Law: a valid label of exactly 32 characters is accepted: a build that
/// passes every other validation succeeds.
pub proof fn lemma_label_32_accepted(opt: Opt, ts: DateTime)
    requires
        !(opt.embedded_boot is Some && opt.grub2_mbr is Some),
        !(opt.grub2_mbr is Some && opt.protective_msdos_label),
        spec_bootsec(opt).len() <= 32768,
        !(opt.eltorito_opt.boot_info_table && opt.eltorito_opt.grub2_boot_info),
        !(spec_has_boot(opt) && opt.eltorito_opt.eltorito_boot is None),
        spec_label_ok(opt),
        spec_label(opt).len() == 32,
        spec_names_valid(opt),
        spec_names_unique(opt),
        !spec_cap_exceeded(opt),
    ensures
        spec_build(opt, ts) is Ok,
{
}

/// Law: with `no_boot` set, whatever boot image was supplied, the
/// descriptor set ends right after the primary descriptor: sector 17,
/// bytes 34816 to 36864, holds the set terminator, so no boot record
/// volume descriptor exists; and the file area starts where the catalog
/// would have been, so no catalog or boot image sector is allocated.
pub proof fn lemma_no_boot_omits_catalog(opt: Opt, ts: DateTime)
    requires
        opt.eltorito_opt.no_boot,
        spec_error(opt) is None,
    ensures
        spec_image(opt, ts).subrange(34816int, 36864int) == spec_terminator(),
        spec_boot_part(opt) == Seq::<u8>::empty(),
        spec_file_start(opt) == spec_cat_lba(opt),
{
    let p1 = spec_system_area(spec_bootsec(opt), opt.protective_msdos_label, spec_total(opt) as u32);
    assert(spec_bootsec(opt).len() <= 32768);
    assert(p1.len() == 32768);
    lemma_pvd_len(
        spec_label(opt),
        spec_total(opt) as u32,
        PATH_TABLE_SIZE,
        spec_path_l_lba(opt) as u32,
        spec_path_m_lba(opt) as u32,
        spec_root_lba(opt) as u32,
        (spec_root_sectors(opt) * 2048) as u32,
        ts,
    );
    assert(spec_terminator().len() == 2048);
    assert(spec_image(opt, ts).subrange(34816int, 36864int) =~= spec_terminator());
}

/// Law: the root directory's bytes, sector-padded, fill exactly the
/// extent that the volume descriptor and the layout advertise for it:
/// `spec_root_sectors` sectors.
pub proof fn lemma_root_dir_fills_extent(opt: Opt, ts: DateTime)
    ensures
        padded(spec_root_dir(opt, ts)).len() == spec_root_sectors(opt) * 2048,
{
    let recs = spec_records(opt, ts);
    let lens = spec_lens(opt);
    let n = opt.input_files@.len();
    let root_lba = spec_root_lba(opt) as u32;
    let root_size = (spec_root_sectors(opt) * 2048) as u32;
    assert(recs.len() == lens.len());
    assert forall|i: int| 0 <= i < recs.len() implies #[trigger] lens[i] == recs[i].len() by {
        if i == 0 {
            lemma_dir_record_len(seq![0u8], root_lba, root_size, ts, 2u8);
        } else if i == 1 {
            lemma_dir_record_len(seq![1u8], root_lba, root_size, ts, 2u8);
        } else {
            lemma_dir_record_len(
                spec_fname(opt, i - 2),
                (spec_file_lba(opt, i - 2)) as u32,
                opt.input_files@[i - 2].data@.len() as u32,
                ts,
                0u8,
            );
            assert(lens[i] == spec_rec_len(spec_fname(opt, i - 2).len()));
        }
    }
    lemma_dir_table_len(recs, lens);
    lemma_padded_len(spec_root_dir(opt, ts));
}

/// A sequence stands at sector 0 of itself.
proof fn lemma_extent_base(x: Seq<u8>)
    ensures
        extent_holds(x, 0, x),
{
    assert(x.subrange(0, x.len() as int) =~= x);
}

/// Appending on the right keeps an extent in place.
proof fn lemma_extent_extend(x: Seq<u8>, y: Seq<u8>, lba: int, data: Seq<u8>)
    requires
        extent_holds(x, lba, data),
    ensures
        extent_holds(x + y, lba, data),
{
    assert((x + y).subrange(lba * 2048, lba * 2048 + data.len()) =~= x.subrange(
        lba * 2048,
        lba * 2048 + data.len(),
    ));
}

/// Prepending whole sectors shifts an extent by their count.
proof fn lemma_extent_shift(x: Seq<u8>, y: Seq<u8>, k: int, lba: int, data: Seq<u8>)
    requires
        0 <= k,
        x.len() == k * 2048,
        extent_holds(y, lba, data),
    ensures
        extent_holds(x + y, k + lba, data),
{
    assert((k + lba) * 2048 == x.len() + lba * 2048);
    assert((x + y).subrange((k + lba) * 2048, (k + lba) * 2048 + data.len()) =~= y.subrange(
        lba * 2048,
        lba * 2048 + data.len(),
    ));
}

/// Law: every inner structure stands at the sector that the descriptors
/// and the layout advertise for it: the two path tables, the root
/// directory, and, when boot is enabled, the boot catalog and the patched
/// boot image.
#[verifier::rlimit(100)]
pub proof fn lemma_structures_at_their_lbas(opt: Opt, ts: DateTime)
    requires
        spec_error(opt) is None,
    ensures
        extent_holds(
            spec_image(opt, ts),
            spec_path_l_lba(opt),
            padded(spec_path_table_l(spec_root_lba(opt) as u32)),
        ),
        extent_holds(
            spec_image(opt, ts),
            spec_path_m_lba(opt),
            padded(spec_path_table_m(spec_root_lba(opt) as u32)),
        ),
        extent_holds(spec_image(opt, ts), spec_root_lba(opt), padded(spec_root_dir(opt, ts))),
        spec_has_boot(opt) ==> extent_holds(
            spec_image(opt, ts),
            spec_cat_lba(opt),
            spec_catalog(
                spec_media_type(opt.eltorito_opt.no_emu_boot, spec_boot_image(opt).len()),
                spec_boot_count(opt.boot_load_size, spec_boot_image(opt).len()),
                spec_bi_lba(opt) as u32,
            ),
        ),
        spec_has_boot(opt) ==> extent_holds(
            spec_image(opt, ts),
            spec_bi_lba(opt),
            spec_patched_image(
                padded(spec_boot_image(opt)),
                spec_bi_lba(opt) as u32,
                spec_boot_image(opt).len() as u32,
                opt.eltorito_opt.boot_info_table,
                opt.eltorito_opt.grub2_boot_info,
            ),
        ),
{
    assert(spec_label(opt).len() <= 32);
    lemma_pvd_len(
        spec_label(opt),
        spec_total(opt) as u32,
        PATH_TABLE_SIZE,
        spec_path_l_lba(opt) as u32,
        spec_path_m_lba(opt) as u32,
        spec_root_lba(opt) as u32,
        (spec_root_sectors(opt) * 2048) as u32,
        ts,
    );
    assert(spec_bootsec(opt).len() <= 32768);
    lemma_padded_len(spec_path_table_l(spec_root_lba(opt) as u32));
    lemma_padded_len(spec_path_table_m(spec_root_lba(opt) as u32));
    assert(spec_sectors(10nat) == 1);
    lemma_root_dir_fills_extent(opt, ts);

    let p1 = spec_system_area(spec_bootsec(opt), opt.protective_msdos_label, spec_total(opt) as u32);
    let p2 = spec_pvd(
        spec_label(opt),
        spec_total(opt) as u32,
        PATH_TABLE_SIZE,
        spec_path_l_lba(opt) as u32,
        spec_path_m_lba(opt) as u32,
        spec_root_lba(opt) as u32,
        (spec_root_sectors(opt) * 2048) as u32,
        ts,
    );
    let p3: Seq<u8> = if spec_has_boot(opt) {
        spec_brvd(spec_cat_lba(opt) as u32)
    } else {
        Seq::empty()
    };
    let p4 = spec_terminator();
    let p5 = padded(spec_path_table_l(spec_root_lba(opt) as u32));
    let p6 = padded(spec_path_table_m(spec_root_lba(opt) as u32));
    let p7 = padded(spec_root_dir(opt, ts));
    let p8 = spec_boot_part(opt);
    let pf = spec_files_data(opt, opt.input_files@.len() as int);
    let x2 = p1 + p2;
    let x3 = x2 + p3;
    let x4 = x3 + p4;
    let x5 = x4 + p5;
    let x6 = x5 + p6;
    let x7 = x6 + p7;
    assert(spec_image_head(opt, ts) == x7 + p8);
    assert(spec_image(opt, ts) == spec_image_head(opt, ts) + pf);
    assert(x4.len() == spec_path_l_lba(opt) * 2048);
    assert(x5.len() == spec_path_m_lba(opt) * 2048);
    assert(x6.len() == spec_root_lba(opt) * 2048);
    assert(x7.len() == spec_cat_lba(opt) * 2048);

    lemma_extent_base(p5);
    lemma_extent_shift(x4, p5, spec_path_l_lba(opt), 0, p5);
    lemma_extent_extend(x5, p6, spec_path_l_lba(opt), p5);
    lemma_extent_extend(x6, p7, spec_path_l_lba(opt), p5);
    lemma_extent_extend(x7, p8, spec_path_l_lba(opt), p5);
    lemma_extent_extend(spec_image_head(opt, ts), pf, spec_path_l_lba(opt), p5);

    lemma_extent_base(p6);
    lemma_extent_shift(x5, p6, spec_path_m_lba(opt), 0, p6);
    lemma_extent_extend(x6, p7, spec_path_m_lba(opt), p6);
    lemma_extent_extend(x7, p8, spec_path_m_lba(opt), p6);
    lemma_extent_extend(spec_image_head(opt, ts), pf, spec_path_m_lba(opt), p6);

    lemma_extent_base(p7);
    lemma_extent_shift(x6, p7, spec_root_lba(opt), 0, p7);
    lemma_extent_extend(x7, p8, spec_root_lba(opt), p7);
    lemma_extent_extend(spec_image_head(opt, ts), pf, spec_root_lba(opt), p7);

    if spec_has_boot(opt) {
        let cat = spec_catalog(
            spec_media_type(opt.eltorito_opt.no_emu_boot, spec_boot_image(opt).len()),
            spec_boot_count(opt.boot_load_size, spec_boot_image(opt).len()),
            spec_bi_lba(opt) as u32,
        );
        let patched = spec_patched_image(
            padded(spec_boot_image(opt)),
            spec_bi_lba(opt) as u32,
            spec_boot_image(opt).len() as u32,
            opt.eltorito_opt.boot_info_table,
            opt.eltorito_opt.grub2_boot_info,
        );
        assert(p8 == cat + patched);
        assert(cat.len() == 2048);

        lemma_extent_base(cat);
        lemma_extent_extend(cat, patched, 0, cat);
        lemma_extent_shift(x7, p8, spec_cat_lba(opt), 0, cat);
        lemma_extent_extend(spec_image_head(opt, ts), pf, spec_cat_lba(opt), cat);

        lemma_extent_base(patched);
        lemma_extent_shift(cat, patched, 1, 0, patched);
        lemma_extent_shift(x7, p8, spec_cat_lba(opt), 1, patched);
        lemma_extent_extend(spec_image_head(opt, ts), pf, spec_cat_lba(opt) + 1, patched);
    }
}

/// Law: an empty input list still yields a root directory holding exactly
/// the two synthetic `.` and `..` records, 68 bytes in one sector.
pub proof fn lemma_empty_input_root_dir(opt: Opt, ts: DateTime)
    requires
        opt.input_files@.len() == 0,
    ensures
        spec_records(opt, ts).len() == 2,
        spec_root_dir(opt, ts) == spec_dir_record(
            seq![0u8],
            spec_root_lba(opt) as u32,
            (spec_root_sectors(opt) * 2048) as u32,
            ts,
            2u8,
        ) + spec_dir_record(
            seq![1u8],
            spec_root_lba(opt) as u32,
            (spec_root_sectors(opt) * 2048) as u32,
            ts,
            2u8,
        ),
        spec_root_size(opt) == 68,
        spec_root_sectors(opt) == 1,
{
    let recs = spec_records(opt, ts);
    let dot = spec_dir_record(
        seq![0u8],
        spec_root_lba(opt) as u32,
        (spec_root_sectors(opt) * 2048) as u32,
        ts,
        2u8,
    );
    let dotdot = spec_dir_record(
        seq![1u8],
        spec_root_lba(opt) as u32,
        (spec_root_sectors(opt) * 2048) as u32,
        ts,
        2u8,
    );
    crate::dir::lemma_dir_record_len(
        seq![0u8],
        spec_root_lba(opt) as u32,
        (spec_root_sectors(opt) * 2048) as u32,
        ts,
        2u8,
    );
    crate::dir::lemma_dir_record_len(
        seq![1u8],
        spec_root_lba(opt) as u32,
        (spec_root_sectors(opt) * 2048) as u32,
        ts,
        2u8,
    );
    assert(recs =~= seq![dot, dotdot]);
    assert(recs.drop_last() =~= seq![dot]);
    assert(seq![dot].drop_last() =~= Seq::<Seq<u8>>::empty());
    assert(spec_dir_table(Seq::<Seq<u8>>::empty()) == Seq::<u8>::empty());
    assert(spec_dir_table(seq![dot]) == dot);
    assert(spec_dir_table(recs) == dot + dotdot);

    let lens = spec_lens(opt);
    assert(lens =~= seq![34nat, 34nat]);
    assert(lens.drop_last() =~= seq![34nat]);
    assert(seq![34nat].drop_last() =~= Seq::<nat>::empty());
    assert(spec_table_len(Seq::<nat>::empty()) == 0);
    assert(spec_table_len(seq![34nat]) == 34);
    assert(spec_table_len(lens) == 68);
    assert(spec_sectors(68nat) == 1);
}

} // verus!
