//! Binning of pixels for clustering in Oklab.

use vstd::prelude::*;
use crate::kmeans::{spec_quantize, BIN_COUNT};

verus! {

/// The bin of a colour, as the RGB clustering bins it: the top five bits of
/// each channel.
pub fn quantize_pixel(r: u8, g: u8, b: u8) -> (idx: usize)
    ensures
        idx == spec_quantize(r, g, b),
        idx < BIN_COUNT,
{
    crate::kmeans::quantize_pixel(r, g, b)
}

} // verus!
