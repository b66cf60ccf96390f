//! The ways a build can fail.  Every failure is detected before any output
//! byte is produced; the build returns the first error it finds and writes
//! nothing.

use vstd::prelude::*;

verus! {

/// Why a build was refused.
#[derive(Clone, Copy, Debug, PartialEq, Eq, Structural)]
pub enum IsoError {
    /// The image would exceed the 32-bit sector-count range, or a single
    /// piece of content would exceed a 32-bit byte length field.
    CapacityError,
    /// A boot catalog was requested but no boot image was supplied.
    MissingBootImage,
    /// The embedded boot sector and the GRUB2 MBR both target the system
    /// area, or the GRUB2 MBR clashes with the protective MSDOS label.
    ConflictingBootSector,
    /// A system-area boot sector is larger than the 16-sector system area.
    BootSectorTooLarge,
    /// Both boot info table formats were requested at once.
    ConflictingBootInfoFormat,
    /// The volume label is longer than 32 characters or holds a character
    /// outside the permitted set.
    LabelTooLong,
    /// Two input files collide after on-disk name normalization.
    DuplicateName,
    /// A file name cannot be represented in the permitted character set and
    /// length.
    NameInvalid,
}

} // verus!
