//! Sector allocation.  One allocator instance is threaded through a single
//! build; it hands out contiguous sector-aligned extents in request order
//! and is the single source of truth for every offset in the image.

use vstd::prelude::*;

use crate::bytes::spec_sectors;
use crate::errors::IsoError;

verus! {

/// A contiguous extent: starting logical block address and byte length.
#[derive(Clone, Copy, Debug, PartialEq, Eq, Structural)]
pub struct Extent {
    pub lba: u32,
    pub length_bytes: u32,
}

/// Tracks the next free 2048-byte logical sector.  Allocation is
/// append-only: extents are handed out at monotonically increasing
/// addresses and never overlap.
pub struct SectorAllocator {
    /// The next free sector.
    pub next_sector: u32,
}

impl SectorAllocator {
    /// A fresh allocator whose first free sector is `start`.
    pub fn new(start: u32) -> (r: SectorAllocator)
        ensures
            r.next_sector == start,
    {
        SectorAllocator { next_sector: start }
    }

    /// Reserve the next sector-aligned extent large enough for
    /// `byte_length` bytes and advance the free pointer past it.  Fails
    /// with `CapacityError` exactly when the advanced sector count would
    /// leave the 32-bit range.
    pub fn reserve(&mut self, byte_length: u32) -> (r: Result<Extent, IsoError>)
        ensures
            match r {
                Ok(e) => {
                    &&& old(self).next_sector + spec_sectors(byte_length as nat) <= u32::MAX
                    &&& e.lba == old(self).next_sector
                    &&& e.length_bytes == byte_length
                    &&& final(self).next_sector == old(self).next_sector + spec_sectors(
                        byte_length as nat,
                    )
                },
                Err(e) => {
                    &&& e == IsoError::CapacityError
                    &&& old(self).next_sector + spec_sectors(byte_length as nat) > u32::MAX
                    &&& final(self).next_sector == old(self).next_sector
                },
            },
    {
        let sectors: u64 = crate::bytes::sector_count(byte_length as u64);
        if sectors > u32::MAX as u64 - self.next_sector as u64 {
            return Err(IsoError::CapacityError);
        }
        let lba: u32 = self.next_sector;
        self.next_sector = self.next_sector + sectors as u32;
        Ok(Extent { lba, length_bytes: byte_length })
    }

    /// Total sectors consumed so far; fills the volume space size field at
    /// the end of a build.
    pub fn current_sector_count(&self) -> (r: u32)
        ensures
            r == self.next_sector,
    {
        self.next_sector
    }
}

} // verus!
