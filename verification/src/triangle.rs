//! Triangle chunks.

use vstd::prelude::*;

use crate::geometry::{Chunk, Triangle};
use crate::produce::{chunk_mask_of, init_chunk_mask, Produce};

verus! {

/// Get triangle chunk at an offset of a virtual list of triangles, with the mask
/// that marks the triangles of the chunk that the list holds.
///
/// The number of enabled bits in the mask tells the size of the triangle chunk.
pub fn triangle_chunk<S, P: Produce<Triangle<S>> + ?Sized>(list: &P, offset: usize) -> (r: (
    Chunk<Triangle<S>>,
    u64,
))
    requires
        list.produce_req(offset),
        list.spec_virtual_length() <= usize::MAX,
        offset <= list.spec_virtual_length(),
    ensures
        list.produces(offset, r.0@),
        r.1 == chunk_mask_of((list.spec_virtual_length() - offset) as nat),
{
    let chunk = list.produce(offset);
    let n = list.virtual_length();
    (chunk, init_chunk_mask(n, offset))
}

} // verus!
