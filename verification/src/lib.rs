//! Builder for ISO-9660 optical-disc images.
//!
//! The core of the crate assembles a complete disc image from a flat list of
//! input files and a small set of bootability options: primary volume
//! descriptor, path tables, root directory records, an optional El Torito
//! boot record and catalog, and an optional hybrid BIOS boot sector in the
//! 16-sector system area.  The image layout is specified byte-for-byte by
//! spec functions, and the builder is proved to produce exactly those bytes.
//!
//! Alongside the image builder, the crate holds the plain data types of the
//! console runtime bindings (video, gamepad, audio, file system); the
//! host-call wrappers around them live outside the verified library.

pub mod audio;
pub mod bytes;
pub mod boot;
pub mod clock;
pub mod dir;
pub mod errors;
pub mod gamepad;
pub mod image;
pub mod io;
pub mod laws;
pub mod names;
pub mod options;
pub mod path_table;
pub mod sector;
pub mod vdp;
pub mod volume;
