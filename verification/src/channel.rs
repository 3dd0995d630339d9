//! A wireless channel as a plain value: channel number, width and band,
//! copied out of a foreign channel object at read time. Once built, a
//! channel value has no foreign lifetime dependency.

use vstd::prelude::*;

use crate::kinds::CWChannelBand;
use crate::kinds::CWChannelWidth;
use crate::kinds::band_of_code;
use crate::kinds::width_of_code;

verus! {

/// A channel a network operates on.
#[derive(Clone, Copy, Debug, PartialEq, Eq, Structural)]
pub struct CWChannel {
    /// The channel number.
    pub number: i64,
    /// The width of this channel.
    pub width: CWChannelWidth,
    /// The 2.4 or 5GHz band of this channel.
    pub band: CWChannelBand,
}

impl CWChannel {
    /// Builds a channel value from the three numeric properties read off
    /// a foreign channel object. Width and band constants outside the
    /// known sets map to their `Unknown` sentinels, so the conversion
    /// never fails, whatever a future OS version reports.
    pub fn from_raw(number: i64, width: i64, band: i64) -> (r: CWChannel)
        ensures
            r.number == number,
            r.width == width_of_code(width as int),
            r.band == band_of_code(band as int),
    {
        CWChannel {
            number,
            width: CWChannelWidth::from_i64(width),
            band: CWChannelBand::from_i64(band),
        }
    }
}

} // verus!
