//! Data handed to a performance profiler.

use vstd::prelude::*;

use crate::mask::CompressedMasks;

verus! {

/// Data that is sent to performance profiler after pre-processing.
pub struct ProfileCompressData<'a> {
    /// Tile size.
    pub tile_size: u32,
    /// The size of render tile grid.
    pub grid: [u32; 2],
    /// Compressed masks per render tile.
    pub compr_masks: &'a [CompressedMasks],
}

} // verus!
