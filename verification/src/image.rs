//! The build: validation, layout, and the final byte stream.
//!
//! `create_iso` is a pure function of the configuration and a timestamp.
//! `spec_error` fixes exactly which error, if any, the build returns, and
//! `spec_image` fixes every byte of a successful build: the 16-sector
//! system area, the volume descriptors, the two path tables, the root
//! directory, the optional boot catalog and patched boot image, and each
//! file's data, every piece zero-padded to a whole number of sectors.

use vstd::prelude::*;

use crate::boot::{
    apply_boot_patches, build_system_area, media_type, boot_count, push_brvd, push_catalog,
    spec_boot_count, spec_brvd, spec_catalog, spec_media_type, spec_patched_image,
    spec_system_area,
};
use crate::bytes::{
    lemma_padded_concat, lemma_padded_len, lemma_sectors_len, pad_to_sector, padded, push_bytes,
    spec_sectors,
};
use crate::clock::DateTime;
use crate::dir::{
    build_root_dir, spec_dir_table, spec_lens_of, spec_records_from, spec_table_len,
    table_len_for,
};
use crate::errors::IsoError;
use crate::names::{
    fold_name, label_bytes, lemma_valid_folded_len, bytes_equal, spec_folded, spec_label_bytes,
    spec_valid_label, spec_valid_name,
};
use crate::options::Opt;
use crate::path_table::{
    push_path_table_l, push_path_table_m, spec_path_table_l, spec_path_table_m, PATH_TABLE_SIZE,
};
use crate::sector::SectorAllocator;
use crate::volume::{push_pvd, push_terminator, spec_pvd, spec_terminator};

verus! {

/// Is a boot catalog built at all?
pub open spec fn spec_has_boot(opt: Opt) -> bool {
    !opt.eltorito_opt.no_boot
}

/// The El Torito boot image's bytes; empty when none was supplied.
pub open spec fn spec_boot_image(opt: Opt) -> Seq<u8> {
    match opt.eltorito_opt.eltorito_boot {
        Some(b) => b@,
        None => Seq::empty(),
    }
}

/// The system-area boot sector's bytes; empty when none was supplied.
pub open spec fn spec_bootsec(opt: Opt) -> Seq<u8> {
    match opt.embedded_boot {
        Some(b) => b@,
        None => match opt.grub2_mbr {
            Some(g) => g@,
            None => Seq::empty(),
        },
    }
}

/// The volume label's bytes; empty when none was supplied.
pub open spec fn spec_label(opt: Opt) -> Seq<u8> {
    match opt.primary_volume_name {
        Some(l) => spec_label_bytes(l@),
        None => Seq::empty(),
    }
}

/// Is the supplied label acceptable?
pub open spec fn spec_label_ok(opt: Opt) -> bool {
    match opt.primary_volume_name {
        Some(l) => spec_valid_label(l@),
        None => true,
    }
}

/// The on-disk name of input file `i`.
pub open spec fn spec_fname(opt: Opt, i: int) -> Seq<u8> {
    spec_folded(opt.input_files[i].name@)
}

/// Every input file name is representable.
pub open spec fn spec_names_valid(opt: Opt) -> bool {
    forall|i: int|
        0 <= i < opt.input_files@.len() ==> spec_valid_name(#[trigger] opt.input_files@[i].name@)
}

/// No two input files share an on-disk name.
pub open spec fn spec_names_unique(opt: Opt) -> bool {
    forall|i: int, j: int|
        0 <= i < j < opt.input_files@.len() ==> #[trigger] spec_fname(opt, i) != #[trigger] spec_fname(
            opt,
            j,
        )
}

/// The record lengths of the root directory table.
pub open spec fn spec_lens(opt: Opt) -> Seq<nat> {
    spec_lens_of(Seq::new(opt.input_files@.len(), |i: int| spec_fname(opt, i)))
}

/// The root directory table's exact byte length.
pub open spec fn spec_root_size(opt: Opt) -> nat {
    spec_table_len(spec_lens(opt))
}

/// Sectors occupied by the root directory table.
pub open spec fn spec_root_sectors(opt: Opt) -> nat {
    spec_sectors(spec_root_size(opt))
}

/// Volume descriptors written: the primary descriptor, the boot record
/// when boot is enabled, and the set terminator.
pub open spec fn spec_desc_count(opt: Opt) -> int {
    if spec_has_boot(opt) {
        3
    } else {
        2
    }
}

/// Sector of the "L" path table, directly after the descriptors, which
/// start at sector 16.
pub open spec fn spec_path_l_lba(opt: Opt) -> int {
    16 + spec_desc_count(opt)
}

/// Sector of the "M" path table.
pub open spec fn spec_path_m_lba(opt: Opt) -> int {
    spec_path_l_lba(opt) + 1
}

/// Sector of the root directory table.
pub open spec fn spec_root_lba(opt: Opt) -> int {
    spec_path_l_lba(opt) + 2
}

/// Sector of the boot catalog (meaningful only when boot is enabled; the
/// file area begins here otherwise).
pub open spec fn spec_cat_lba(opt: Opt) -> int {
    spec_root_lba(opt) + spec_root_sectors(opt)
}

/// Sector of the boot image.
pub open spec fn spec_bi_lba(opt: Opt) -> int {
    spec_cat_lba(opt) + 1
}

/// Sectors occupied by the boot image.
pub open spec fn spec_bi_sectors(opt: Opt) -> nat {
    spec_sectors(spec_boot_image(opt).len())
}

/// First sector of the file data area.
pub open spec fn spec_file_start(opt: Opt) -> int {
    if spec_has_boot(opt) {
        spec_bi_lba(opt) + spec_bi_sectors(opt)
    } else {
        spec_cat_lba(opt)
    }
}

/// Sectors occupied by the first `i` input files.
pub open spec fn spec_prefix_sectors(opt: Opt, i: int) -> int
    decreases i,
{
    if i <= 0 {
        0
    } else {
        spec_prefix_sectors(opt, i - 1) + spec_sectors(opt.input_files@[i - 1].data@.len())
    }
}

/// Sector of input file `i`'s extent.
pub open spec fn spec_file_lba(opt: Opt, i: int) -> int {
    spec_file_start(opt) + spec_prefix_sectors(opt, i)
}

/// Total sectors of the image: the volume space size.
pub open spec fn spec_total(opt: Opt) -> int {
    spec_file_start(opt) + spec_prefix_sectors(opt, opt.input_files@.len() as int)
}

/// Would some size field of the image leave its 32-bit range?
pub open spec fn spec_cap_exceeded(opt: Opt) -> bool {
    ||| spec_root_sectors(opt) * 2048 > 0xFFFFFFFF
    ||| exists|i: int|
        0 <= i < opt.input_files@.len() && #[trigger] opt.input_files@[i].data@.len() > 0xFFFFFFFF
    ||| spec_has_boot(opt) && spec_boot_image(opt).len() > 0xFFFFFFFF
    ||| spec_total(opt) > 0xFFFFFFFF
}

/// The first error of a build, if any: conflicting system-area boot
/// sectors, an oversized one, conflicting boot info formats, a missing
/// boot image, a bad label, an unrepresentable or duplicate file name,
/// and finally the capacity checks.
pub open spec fn spec_error(opt: Opt) -> Option<IsoError> {
    if opt.embedded_boot is Some && opt.grub2_mbr is Some {
        Some(IsoError::ConflictingBootSector)
    } else if opt.grub2_mbr is Some && opt.protective_msdos_label {
        Some(IsoError::ConflictingBootSector)
    } else if spec_bootsec(opt).len() > 32768 {
        Some(IsoError::BootSectorTooLarge)
    } else if opt.eltorito_opt.boot_info_table && opt.eltorito_opt.grub2_boot_info {
        Some(IsoError::ConflictingBootInfoFormat)
    } else if spec_has_boot(opt) && opt.eltorito_opt.eltorito_boot is None {
        Some(IsoError::MissingBootImage)
    } else if !spec_label_ok(opt) {
        Some(IsoError::LabelTooLong)
    } else if !spec_names_valid(opt) {
        Some(IsoError::NameInvalid)
    } else if !spec_names_unique(opt) {
        Some(IsoError::DuplicateName)
    } else if spec_cap_exceeded(opt) {
        Some(IsoError::CapacityError)
    } else {
        None
    }
}

/// The root directory records: `.`, `..`, then one record per file.
pub open spec fn spec_records(opt: Opt, ts: DateTime) -> Seq<Seq<u8>> {
    let n = opt.input_files@.len();
    spec_records_from(
        Seq::new(n, |i: int| spec_fname(opt, i)),
        Seq::new(n, |i: int| opt.input_files@[i].data@.len() as u32),
        Seq::new(n, |i: int| spec_file_lba(opt, i) as u32),
        spec_root_lba(opt) as u32,
        (spec_root_sectors(opt) * 2048) as u32,
        ts,
    )
}

/// The root directory table's bytes.
pub open spec fn spec_root_dir(opt: Opt, ts: DateTime) -> Seq<u8> {
    spec_dir_table(spec_records(opt, ts))
}

/// The file data area: each file's bytes, sector-padded, in input order.
pub open spec fn spec_files_data(opt: Opt, i: int) -> Seq<u8>
    decreases i,
{
    if i <= 0 {
        Seq::empty()
    } else {
        spec_files_data(opt, i - 1) + padded(opt.input_files@[i - 1].data@)
    }
}

/// The boot catalog sector followed by the patched, sector-padded boot
/// image; empty when boot is disabled.
pub open spec fn spec_boot_part(opt: Opt) -> Seq<u8> {
    if spec_has_boot(opt) {
        spec_catalog(
            spec_media_type(opt.eltorito_opt.no_emu_boot, spec_boot_image(opt).len()),
            spec_boot_count(opt.boot_load_size, spec_boot_image(opt).len()),
            spec_bi_lba(opt) as u32,
        ) + spec_patched_image(
            padded(spec_boot_image(opt)),
            spec_bi_lba(opt) as u32,
            spec_boot_image(opt).len() as u32,
            opt.eltorito_opt.boot_info_table,
            opt.eltorito_opt.grub2_boot_info,
        )
    } else {
        Seq::empty()
    }
}

/// Everything before the file data area: system area, descriptors, path
/// tables, root directory, and the optional boot structures.
pub open spec fn spec_image_head(opt: Opt, ts: DateTime) -> Seq<u8> {
    spec_system_area(spec_bootsec(opt), opt.protective_msdos_label, spec_total(opt) as u32)
        + spec_pvd(
        spec_label(opt),
        spec_total(opt) as u32,
        PATH_TABLE_SIZE,
        spec_path_l_lba(opt) as u32,
        spec_path_m_lba(opt) as u32,
        spec_root_lba(opt) as u32,
        (spec_root_sectors(opt) * 2048) as u32,
        ts,
    ) + (if spec_has_boot(opt) {
        spec_brvd(spec_cat_lba(opt) as u32)
    } else {
        Seq::empty()
    }) + spec_terminator() + padded(spec_path_table_l(spec_root_lba(opt) as u32)) + padded(
        spec_path_table_m(spec_root_lba(opt) as u32),
    ) + padded(spec_root_dir(opt, ts)) + spec_boot_part(opt)
}

/// Every byte of a successful build.
pub open spec fn spec_image(opt: Opt, ts: DateTime) -> Seq<u8> {
    spec_image_head(opt, ts) + spec_files_data(opt, opt.input_files@.len() as int)
}

/// A successful build's bytes, or its first error.
pub open spec fn spec_build(opt: Opt, ts: DateTime) -> Result<Seq<u8>, IsoError> {
    match spec_error(opt) {
        Some(e) => Err(e),
        None => Ok(spec_image(opt, ts)),
    }
}

/// No prefix of the files occupies a negative number of sectors.
pub proof fn lemma_prefix_nonneg(opt: Opt, i: int)
    ensures
        spec_prefix_sectors(opt, i) >= 0,
    decreases i,
{
    if i > 0 {
        lemma_prefix_nonneg(opt, i - 1);
    }
}

/// Earlier file prefixes occupy no more sectors than later ones.
pub proof fn lemma_prefix_mono(opt: Opt, i: int, j: int)
    requires
        i <= j,
    ensures
        spec_prefix_sectors(opt, i) <= spec_prefix_sectors(opt, j),
    decreases j - i,
{
    if i < j {
        lemma_prefix_mono(opt, i, j - 1);
    }
}

/// The file data area's exact length: the prefix sector count times the
/// sector size.
#[verifier::rlimit(50)]
pub proof fn lemma_files_data_len(opt: Opt, i: int)
    ensures
        spec_files_data(opt, i).len() == 2048 * spec_prefix_sectors(opt, i),
    decreases i,
{
    if i > 0 {
        lemma_files_data_len(opt, i - 1);
        crate::bytes::lemma_padded_len(opt.input_files@[i - 1].data@);
    }
}

/// The file data area holds whole sectors.
pub proof fn lemma_files_data_mod(opt: Opt, i: int)
    ensures
        spec_files_data(opt, i).len() % 2048 == 0,
    decreases i,
{
    if i > 0 {
        lemma_files_data_mod(opt, i - 1);
        lemma_padded_len(opt.input_files@[i - 1].data@);
        vstd::arithmetic::div_mod::lemma_add_mod_noop(
            spec_files_data(opt, i - 1).len() as int,
            padded(opt.input_files@[i - 1].data@).len() as int,
            2048,
        );
    }
}

/// Assemble everything before the file data area.
#[verifier::rlimit(100)]
fn emit_head(
    opt: &Opt,
    ts: &DateTime,
    label: &Vec<u8>,
    fnames: &Vec<Vec<u8>>,
    sizes: &Vec<u32>,
    lbas: &Vec<u32>,
    total: u32,
    root_padded: u32,
) -> (out: Vec<u8>)
    requires
        ts.wf(),
        spec_error(*opt) is None,
        label@ == spec_label(*opt),
        fnames@.len() == opt.input_files@.len(),
        sizes@.len() == opt.input_files@.len(),
        lbas@.len() == opt.input_files@.len(),
        forall|j: int| 0 <= j < fnames@.len() ==> #[trigger] fnames@[j]@ == spec_fname(*opt, j),
        forall|j: int|
            0 <= j < sizes@.len() ==> #[trigger] sizes@[j] == opt.input_files@[j].data@.len() as u32,
        forall|j: int| 0 <= j < lbas@.len() ==> #[trigger] lbas@[j] == spec_file_lba(*opt, j) as u32,
        total == spec_total(*opt),
        root_padded == spec_root_sectors(*opt) * 2048,
    ensures
        out@ == spec_image_head(*opt, *ts),
        out@.len() % 2048 == 0,
{
    let et = &opt.eltorito_opt;
    let has_boot: bool = !et.no_boot;
    let path_l: u32 = if has_boot {
        19
    } else {
        18
    };
    let path_m: u32 = path_l + 1;
    let root_lba: u32 = path_l + 2;
    let root_sectors: u32 = root_padded / 2048;
    proof {
        assert(!spec_cap_exceeded(*opt));
        assert(root_sectors == spec_root_sectors(*opt));
        lemma_prefix_nonneg(*opt, opt.input_files@.len() as int);
        assert(spec_cat_lba(*opt) <= spec_total(*opt));
        assert(label@.len() <= 32);
        assert forall|j: int| 0 <= j < fnames@.len() implies 1 <= #[trigger] fnames@[j]@.len()
            <= 13 by {
            assert(spec_valid_name(opt.input_files@[j].name@));
            lemma_valid_folded_len(fnames@[j]@);
        }
    }
    let cat_lba: u32 = root_lba + root_sectors;

    let empty: Vec<u8> = Vec::new();
    let bootsec: &Vec<u8> = match &opt.embedded_boot {
        Some(b) => b,
        None => match &opt.grub2_mbr {
            Some(g) => g,
            None => &empty,
        },
    };
    assert(bootsec@ == spec_bootsec(*opt));
    assert(bootsec@.len() <= 32768);

    let mut out: Vec<u8> = build_system_area(bootsec, opt.protective_msdos_label, total);
    let ghost p1: Seq<u8> = spec_system_area(
        spec_bootsec(*opt),
        opt.protective_msdos_label,
        spec_total(*opt) as u32,
    );
    assert(out@ == p1);

    push_pvd(&mut out, label, total, PATH_TABLE_SIZE, path_l, path_m, root_lba, root_padded, ts);
    let ghost p2: Seq<u8> = spec_pvd(
        spec_label(*opt),
        spec_total(*opt) as u32,
        PATH_TABLE_SIZE,
        spec_path_l_lba(*opt) as u32,
        spec_path_m_lba(*opt) as u32,
        spec_root_lba(*opt) as u32,
        (spec_root_sectors(*opt) * 2048) as u32,
        *ts,
    );
    assert(out@ == p1 + p2);
    proof {
        crate::volume::lemma_pvd_len(
            spec_label(*opt),
            spec_total(*opt) as u32,
            PATH_TABLE_SIZE,
            spec_path_l_lba(*opt) as u32,
            spec_path_m_lba(*opt) as u32,
            spec_root_lba(*opt) as u32,
            (spec_root_sectors(*opt) * 2048) as u32,
            *ts,
        );
    }

    if has_boot {
        push_brvd(&mut out, cat_lba);
    }
    let ghost p3: Seq<u8> = if spec_has_boot(*opt) {
        spec_brvd(spec_cat_lba(*opt) as u32)
    } else {
        Seq::empty()
    };
    proof {
        if !spec_has_boot(*opt) {
            assert((p1 + p2) + p3 =~= p1 + p2);
        }
    }
    assert(out@ == p1 + p2 + p3);
    assert(out@.len() % 2048 == 0);

    push_terminator(&mut out);
    let ghost p4: Seq<u8> = spec_terminator();
    assert(out@ == p1 + p2 + p3 + p4);
    assert(out@.len() % 2048 == 0);

    push_path_table_l(&mut out, root_lba);
    proof {
        lemma_padded_concat(
            p1 + p2 + p3 + p4,
            crate::path_table::spec_path_table_l(spec_root_lba(*opt) as u32),
        );
    }
    pad_to_sector(&mut out);
    let ghost p5: Seq<u8> = padded(spec_path_table_l(spec_root_lba(*opt) as u32));
    assert(out@ == p1 + p2 + p3 + p4 + p5);

    push_path_table_m(&mut out, root_lba);
    proof {
        lemma_padded_concat(
            p1 + p2 + p3 + p4 + p5,
            crate::path_table::spec_path_table_m(spec_root_lba(*opt) as u32),
        );
    }
    pad_to_sector(&mut out);
    let ghost p6: Seq<u8> = padded(spec_path_table_m(spec_root_lba(*opt) as u32));
    assert(out@ == p1 + p2 + p3 + p4 + p5 + p6);

    let dirbuf: Vec<u8> = build_root_dir(fnames, sizes, lbas, root_lba, root_padded, ts);
    proof {
        let n: nat = opt.input_files@.len();
        assert(fnames@.map_values(|v: Vec<u8>| v@) =~= Seq::new(n, |i: int| spec_fname(*opt, i)));
        assert(sizes@ =~= Seq::new(n, |i: int| opt.input_files@[i].data@.len() as u32));
        assert(lbas@ =~= Seq::new(n, |i: int| spec_file_lba(*opt, i) as u32));
        assert(dirbuf@ == spec_root_dir(*opt, *ts));
    }
    push_bytes(&mut out, dirbuf.as_slice());
    proof {
        lemma_padded_concat(p1 + p2 + p3 + p4 + p5 + p6, spec_root_dir(*opt, *ts));
    }
    pad_to_sector(&mut out);
    let ghost p7: Seq<u8> = padded(spec_root_dir(*opt, *ts));
    assert(out@ == p1 + p2 + p3 + p4 + p5 + p6 + p7);

    if has_boot {
        let bi: &Vec<u8> = match &et.eltorito_boot {
            Some(b) => b,
            None => &empty,
        };
        assert(bi@ == spec_boot_image(*opt));
        assert(bi@.len() <= 0xFFFFFFFF);
        assert(spec_bi_lba(*opt) < 0xFFFFFFFF);
        let bi_lba: u32 = cat_lba + 1;
        let media: u8 = media_type(et.no_emu_boot, bi.len() as u64);
        let count: u16 = boot_count(opt.boot_load_size, bi.len() as u64);
        push_catalog(&mut out, media, count, bi_lba);
        let mut bib: Vec<u8> = Vec::new();
        push_bytes(&mut bib, bi.as_slice());
        assert(bib@ =~= bi@);
        pad_to_sector(&mut bib);
        assert(bib@ == padded(spec_boot_image(*opt)));
        apply_boot_patches(&mut bib, bi_lba, bi.len() as u32, et.boot_info_table, et.grub2_boot_info);
        push_bytes(&mut out, bib.as_slice());
        assert(out@ == p1 + p2 + p3 + p4 + p5 + p6 + p7 + spec_boot_part(*opt));
    }
    let ghost p8: Seq<u8> = spec_boot_part(*opt);
    proof {
        if !spec_has_boot(*opt) {
            assert((p1 + p2 + p3 + p4 + p5 + p6 + p7) + p8 =~= p1 + p2 + p3 + p4 + p5 + p6 + p7);
        }
    }
    assert(out@ == p1 + p2 + p3 + p4 + p5 + p6 + p7 + p8);
    assert(out@ == spec_image_head(*opt, *ts));
    assert(out@.len() % 2048 == 0);
    out
}

/// Assemble the byte stream from a validated configuration and its
/// computed layout.
#[verifier::rlimit(100)]
fn emit_image(
    opt: &Opt,
    ts: &DateTime,
    label: &Vec<u8>,
    fnames: &Vec<Vec<u8>>,
    sizes: &Vec<u32>,
    lbas: &Vec<u32>,
    total: u32,
    root_padded: u32,
) -> (out: Vec<u8>)
    requires
        ts.wf(),
        spec_error(*opt) is None,
        label@ == spec_label(*opt),
        fnames@.len() == opt.input_files@.len(),
        sizes@.len() == opt.input_files@.len(),
        lbas@.len() == opt.input_files@.len(),
        forall|j: int| 0 <= j < fnames@.len() ==> #[trigger] fnames@[j]@ == spec_fname(*opt, j),
        forall|j: int|
            0 <= j < sizes@.len() ==> #[trigger] sizes@[j] == opt.input_files@[j].data@.len() as u32,
        forall|j: int| 0 <= j < lbas@.len() ==> #[trigger] lbas@[j] == spec_file_lba(*opt, j) as u32,
        total == spec_total(*opt),
        root_padded == spec_root_sectors(*opt) * 2048,
    ensures
        out@ == spec_image(*opt, *ts),
{
    let mut out: Vec<u8> = emit_head(opt, ts, label, fnames, sizes, lbas, total, root_padded);
    let ghost base: Seq<u8> = out@;
    let n: usize = opt.input_files.len();
    let mut i: usize = 0;
    while i < n
        invariant
            i <= n,
            n == opt.input_files@.len(),
            base.len() % 2048 == 0,
            out@ == base + spec_files_data(*opt, i as int),
        decreases n - i,
    {
        proof {
            lemma_files_data_mod(*opt, i as int);
        }
        push_bytes(&mut out, opt.input_files[i].data.as_slice());
        proof {
            vstd::arithmetic::div_mod::lemma_add_mod_noop(
                base.len() as int,
                spec_files_data(*opt, i as int).len() as int,
                2048,
            );
            lemma_padded_concat(
                base + spec_files_data(*opt, i as int),
                opt.input_files@[i as int].data@,
            );
        }
        pad_to_sector(&mut out);
        i = i + 1;
        assert(out@ == base + spec_files_data(*opt, i as int));
    }
    assert(out@ == spec_image(*opt, *ts));
    out
}

/// Build a complete disc image from the configuration and a timestamp.
///
/// Succeeds exactly when the configuration passes every validation of
/// `spec_error`, and then returns exactly the bytes of `spec_image`: a
/// whole number of 2048-byte sectors.  On failure it returns the first
/// error and writes nothing.
#[verifier::rlimit(100)]
#[verifier::loop_isolation(false)]
pub fn create_iso(opt: &Opt, ts: &DateTime) -> (r: Result<Vec<u8>, IsoError>)
    requires
        ts.wf(),
    ensures
        match r {
            Ok(v) => spec_error(*opt) is None && v@ == spec_image(*opt, *ts) && v@.len() % 2048
                == 0,
            Err(e) => spec_error(*opt) == Some(e),
        },
{
    let et = &opt.eltorito_opt;

    if opt.embedded_boot.is_some() && opt.grub2_mbr.is_some() {
        return Err(IsoError::ConflictingBootSector);
    }
    if opt.grub2_mbr.is_some() && opt.protective_msdos_label {
        return Err(IsoError::ConflictingBootSector);
    }
    let bootsec_len: usize = match &opt.embedded_boot {
        Some(b) => b.len(),
        None => match &opt.grub2_mbr {
            Some(g) => g.len(),
            None => 0,
        },
    };
    if bootsec_len > 32768 {
        return Err(IsoError::BootSectorTooLarge);
    }
    if et.boot_info_table && et.grub2_boot_info {
        return Err(IsoError::ConflictingBootInfoFormat);
    }
    let has_boot: bool = !et.no_boot;
    if has_boot && et.eltorito_boot.is_none() {
        return Err(IsoError::MissingBootImage);
    }

    let label: Vec<u8> = match &opt.primary_volume_name {
        Some(l) => match label_bytes(l.as_str()) {
            Some(v) => v,
            None => {
                return Err(IsoError::LabelTooLong);
            },
        },
        None => Vec::new(),
    };
    assert(spec_label_ok(*opt));
    assert(label@ == spec_label(*opt));

    let n: usize = opt.input_files.len();
    let mut fnames: Vec<Vec<u8>> = Vec::new();
    let mut i: usize = 0;
    while i < n
        invariant
            i <= n,
            n == opt.input_files@.len(),
            fnames@.len() == i,
            forall|j: int|
                0 <= j < i ==> spec_valid_name(#[trigger] opt.input_files@[j].name@),
            forall|j: int| 0 <= j < i ==> #[trigger] fnames@[j]@ == spec_fname(*opt, j),
        decreases n - i,
    {
        match fold_name(opt.input_files[i].name.as_str()) {
            Some(f) => {
                fnames.push(f);
            },
            None => {
                assert(!spec_names_valid(*opt));
                return Err(IsoError::NameInvalid);
            },
        }
        i = i + 1;
    }
    assert(spec_names_valid(*opt));

    let mut x: usize = 1;
    while x < n
        invariant
            1 <= x,
            x <= n || n == 0,
            n == opt.input_files@.len(),
            fnames@.len() == n,
            forall|j: int| 0 <= j < n ==> #[trigger] fnames@[j]@ == spec_fname(*opt, j),
            forall|a: int, b: int|
                0 <= a < b < x ==> #[trigger] spec_fname(*opt, a) != #[trigger] spec_fname(*opt, b),
        decreases n - x,
    {
        let mut y: usize = 0;
        while y < x
            invariant
                0 <= y <= x < n,
                n == opt.input_files@.len(),
                fnames@.len() == n,
                forall|j: int| 0 <= j < n ==> #[trigger] fnames@[j]@ == spec_fname(*opt, j),
                forall|a: int|
                    0 <= a < y ==> #[trigger] spec_fname(*opt, a) != spec_fname(*opt, x as int),
            decreases x - y,
        {
            if bytes_equal(&fnames[y], &fnames[x]) {
                assert(spec_fname(*opt, y as int) == spec_fname(*opt, x as int));
                assert(!spec_names_unique(*opt));
                return Err(IsoError::DuplicateName);
            }
            y = y + 1;
        }
        x = x + 1;
    }
    assert(spec_names_unique(*opt));

    // Root directory size, and its padded size.
    let ghost lens: Seq<nat> = spec_lens(*opt);
    proof {
        assert(fnames@.map_values(|v: Vec<u8>| v@) =~= Seq::new(
            opt.input_files@.len(),
            |i: int| spec_fname(*opt, i),
        ));
        assert forall|j: int| 0 <= j < fnames@.len() implies 1 <= #[trigger] fnames@[j]@.len()
            <= 13 by {
            assert(spec_valid_name(opt.input_files@[j].name@));
            lemma_valid_folded_len(fnames@[j]@);
        }
    }
    let root_size: u64 = match table_len_for(&fnames) {
        Ok(v) => v,
        Err(e) => {
            proof {
                lemma_sectors_len(spec_root_size(*opt));
            }
            return Err(e);
        },
    };
    assert(root_size == spec_root_size(*opt));
    let root_sectors64: u64 = crate::bytes::sector_count(root_size);
    let root_padded64: u64 = root_sectors64 * 2048;
    proof {
        lemma_sectors_len(spec_root_size(*opt));
    }
    if root_padded64 > 0xFFFFFFFF {
        return Err(IsoError::CapacityError);
    }
    let root_padded: u32 = root_padded64 as u32;

    // Per-piece 32-bit length checks.
    let mut sizes: Vec<u32> = Vec::new();
    let mut k: usize = 0;
    while k < n
        invariant
            k <= n,
            n == opt.input_files@.len(),
            sizes@.len() == k,
            forall|j: int|
                0 <= j < k ==> #[trigger] sizes@[j] == opt.input_files@[j].data@.len() as u32,
            forall|j: int| 0 <= j < k ==> #[trigger] opt.input_files@[j].data@.len() <= 0xFFFFFFFF,
        decreases n - k,
    {
        let len: usize = opt.input_files[k].data.len();
        if len as u64 > 0xFFFFFFFF {
            return Err(IsoError::CapacityError);
        }
        sizes.push(len as u32);
        k = k + 1;
    }

    let bi_len: u64 = if has_boot {
        match &et.eltorito_boot {
            Some(b) => b.len() as u64,
            None => 0,
        }
    } else {
        0
    };
    if has_boot && bi_len > 0xFFFFFFFF {
        return Err(IsoError::CapacityError);
    }
    proof {
        if has_boot {
            assert(bi_len == spec_boot_image(*opt).len());
        }
    }

    // Layout: assign every extent in final sector order.
    let mut alloc: SectorAllocator = SectorAllocator::new(16);
    let pvd_r = alloc.reserve(2048);
    if pvd_r.is_err() {
        return Err(IsoError::CapacityError);
    }
    if has_boot {
        let brvd_r = alloc.reserve(2048);
        if brvd_r.is_err() {
            return Err(IsoError::CapacityError);
        }
    }
    let term_r = alloc.reserve(2048);
    if term_r.is_err() {
        return Err(IsoError::CapacityError);
    }
    assert(alloc.next_sector == spec_path_l_lba(*opt));
    let path_l_r = alloc.reserve(PATH_TABLE_SIZE);
    if path_l_r.is_err() {
        return Err(IsoError::CapacityError);
    }
    assert(alloc.next_sector == spec_path_m_lba(*opt));
    let path_m_r = alloc.reserve(PATH_TABLE_SIZE);
    if path_m_r.is_err() {
        return Err(IsoError::CapacityError);
    }
    assert(alloc.next_sector == spec_root_lba(*opt));
    proof {
        lemma_prefix_nonneg(*opt, opt.input_files@.len() as int);
    }
    let root_r = alloc.reserve(root_size as u32);
    if root_r.is_err() {
        return Err(IsoError::CapacityError);
    }
    assert(alloc.next_sector == spec_cat_lba(*opt));
    if has_boot {
        let cat_r = alloc.reserve(2048);
        if cat_r.is_err() {
            return Err(IsoError::CapacityError);
        }
        assert(alloc.next_sector == spec_bi_lba(*opt));
        let bi_r = alloc.reserve(bi_len as u32);
        if bi_r.is_err() {
            return Err(IsoError::CapacityError);
        }
    }
    assert(alloc.next_sector == spec_file_start(*opt));

    let mut lbas: Vec<u32> = Vec::new();
    let mut f: usize = 0;
    while f < n
        invariant
            f <= n,
            n == opt.input_files@.len(),
            sizes@.len() == n,
            forall|j: int|
                0 <= j < n ==> #[trigger] opt.input_files@[j].data@.len() <= 0xFFFFFFFF,
            lbas@.len() == f,
            forall|j: int| 0 <= j < f ==> #[trigger] lbas@[j] == spec_file_lba(*opt, j) as u32,
            alloc.next_sector == spec_file_start(*opt) + spec_prefix_sectors(*opt, f as int),
        decreases n - f,
    {
        let len: usize = opt.input_files[f].data.len();
        let e_r = alloc.reserve(len as u32);
        match e_r {
            Ok(e) => {
                lbas.push(e.lba);
            },
            Err(_) => {
                proof {
                    lemma_prefix_mono(*opt, f as int + 1, n as int);
                }
                return Err(IsoError::CapacityError);
            },
        }
        f = f + 1;
    }
    let total: u32 = alloc.current_sector_count();
    assert(total == spec_total(*opt));
    assert(!spec_cap_exceeded(*opt));
    assert(spec_error(*opt) is None);
    proof {
        crate::laws::lemma_image_len_sector_multiple(*opt, *ts);
    }

    Ok(emit_image(opt, ts, &label, &fnames, &sizes, &lbas, total, root_padded))
}

} // verus!
