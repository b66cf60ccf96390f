//! Build configuration.  All inputs are plain values: the caller resolves
//! file paths to bytes before the build starts, so the build itself is a
//! pure function of this configuration and a timestamp.

use vstd::prelude::*;

verus! {

/// One input file, placed at the filesystem root under its normalized name.
pub struct InputFile {
    /// Name as supplied; it is case-folded and validated during the build.
    pub name: String,
    /// The file's contents.
    pub data: Vec<u8>,
}

/// El Torito boot options.
pub struct ElToritoOpt {
    /// The boot image's bytes, when one was supplied.
    pub eltorito_boot: Option<Vec<u8>>,
    /// Record the boot image as "no emulation" instead of a floppy or hard
    /// disk emulation type.
    pub no_emu_boot: bool,
    /// Skip the boot record volume descriptor and the boot catalog entirely.
    pub no_boot: bool,
    /// Patch the 56-byte boot info table into the boot image.
    pub boot_info_table: bool,
    /// Patch the GRUB2 boot info block into the boot image; mutually
    /// exclusive with `boot_info_table`.
    pub grub2_boot_info: bool,
}

/// Configuration of one build.
pub struct Opt {
    pub eltorito_opt: ElToritoOpt,
    /// Raw boot sector written into the 16-sector system area.
    pub embedded_boot: Option<Vec<u8>>,
    /// Alternative system-area boot sector; mutually exclusive with
    /// `embedded_boot` and with `protective_msdos_label`.
    pub grub2_mbr: Option<Vec<u8>>,
    /// El Torito load count, in 512-byte virtual sectors; 0 means the whole
    /// boot image.
    pub boot_load_size: u32,
    /// Overwrite the first 512 system-area bytes with a partition table that
    /// spans the whole image.
    pub protective_msdos_label: bool,
    /// Volume label for the primary volume descriptor; absent means blank.
    pub primary_volume_name: Option<String>,
    /// Files placed at the filesystem root, order preserved.
    pub input_files: Vec<InputFile>,
}

} // verus!
