//! Calendar timestamps.  The build stamps the volume descriptor and the
//! directory records with one timestamp supplied by the caller; the clock
//! itself is outside the library.

use vstd::prelude::*;

verus! {

/// A calendar timestamp.
#[derive(Clone, Copy, Debug, PartialEq, Eq, Structural)]
pub struct DateTime {
    pub year: u16,
    pub month: u8,
    pub day: u8,
    pub hour: u8,
    pub minute: u8,
    pub second: u8,
}

impl DateTime {
    /// The timestamp fits the image's two date formats: the 7-byte binary
    /// form stores the year as an offset from 1900 in a single byte, and the
    /// 17-byte decimal form stores each other part in two decimal digits.
    pub open spec fn wf(self) -> bool {
        &&& 1900 <= self.year <= 2155
        &&& self.month < 100
        &&& self.day < 100
        &&& self.hour < 100
        &&& self.minute < 100
        &&& self.second < 100
    }
}

} // verus!
